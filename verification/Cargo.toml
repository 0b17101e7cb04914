[package]
name = "gamepad_rs"
version = "0.1.0"
edition = "2021"
publish = false

[dependencies]
libudev-sys = "=0.1.4"
winapi = { version = "=0.3.9", features = ["winerror", "xinput"] }
