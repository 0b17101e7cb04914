//! Plain values as the native controller subsystem reports them: the gamepad
//! report, the capability descriptor and the live state of one slot, with the
//! button masks and subtype codes that the reports are made of.

use vstd::prelude::*;

verus! {

pub const BUTTON_DPAD_UP: u16 = 0x0001;

pub const BUTTON_DPAD_DOWN: u16 = 0x0002;

pub const BUTTON_DPAD_LEFT: u16 = 0x0004;

pub const BUTTON_DPAD_RIGHT: u16 = 0x0008;

pub const BUTTON_START: u16 = 0x0010;

pub const BUTTON_BACK: u16 = 0x0020;

pub const BUTTON_LEFT_THUMB: u16 = 0x0040;

pub const BUTTON_RIGHT_THUMB: u16 = 0x0080;

pub const BUTTON_LEFT_SHOULDER: u16 = 0x0100;

pub const BUTTON_RIGHT_SHOULDER: u16 = 0x0200;

pub const BUTTON_A: u16 = 0x1000;

pub const BUTTON_B: u16 = 0x2000;

pub const BUTTON_X: u16 = 0x4000;

pub const BUTTON_Y: u16 = 0x8000;

/// Number of button masks the library recognizes.
pub const BUTTON_KINDS: usize = 14;

/// The recognized button masks, in the order in which a capability refresh
/// looks for them and hands out logical button slots.
pub const BUTTON_ORDER: [u16; 14] = [
    BUTTON_A,
    BUTTON_B,
    BUTTON_X,
    BUTTON_Y,
    BUTTON_DPAD_UP,
    BUTTON_DPAD_DOWN,
    BUTTON_DPAD_LEFT,
    BUTTON_DPAD_RIGHT,
    BUTTON_START,
    BUTTON_BACK,
    BUTTON_LEFT_THUMB,
    BUTTON_RIGHT_THUMB,
    BUTTON_LEFT_SHOULDER,
    BUTTON_RIGHT_SHOULDER,
];

pub const SUBTYPE_GAMEPAD: u8 = 0x01;

pub const SUBTYPE_WHEEL: u8 = 0x02;

pub const SUBTYPE_ARCADE_STICK: u8 = 0x03;

pub const SUBTYPE_FLIGHT_STICK: u8 = 0x04;

pub const SUBTYPE_DANCE_PAD: u8 = 0x05;

pub const SUBTYPE_GUITAR: u8 = 0x06;

pub const SUBTYPE_DRUM_KIT: u8 = 0x08;

/// One gamepad report: a button bitmask, two triggers and two thumbsticks.
///
/// In a capability descriptor a nonzero field says that the device has the
/// control; in a live state the fields hold the current readings.
#[derive(Debug, Clone, Copy, PartialEq, Eq, Structural)]
pub struct NativeGamepad {
    pub buttons: u16,
    pub left_trigger: u8,
    pub right_trigger: u8,
    pub thumb_lx: i16,
    pub thumb_ly: i16,
    pub thumb_rx: i16,
    pub thumb_ry: i16,
}

/// The capability descriptor of a slot.
#[derive(Debug, Clone, Copy, PartialEq, Eq, Structural)]
pub struct NativeCapabilities {
    pub sub_type: u8,
    pub gamepad: NativeGamepad,
}

/// The live state of a slot: a packet number and the current report.
#[derive(Debug, Clone, Copy, PartialEq, Eq, Structural)]
pub struct NativeState {
    pub packet_number: u32,
    pub gamepad: NativeGamepad,
}

} // verus!
