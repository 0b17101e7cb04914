//! A uniform polling interface to game controllers: a fixed-capacity data
//! model, the conversion of native capability and state reports into it, and
//! a context that keeps one record per controller slot.

pub mod adapter;
pub mod context;
pub mod devnode;
pub mod laws;
pub mod model;
pub mod native;
pub mod slot;

pub use context::{ControllerContext, ControllerContextInterface};
pub use model::{
    AxisValue, ControllerInfo, ControllerInfoView, ControllerState, ControllerStateView,
    ControllerStatus, Fraction, MAX_ANALOG, MAX_DEVICES, MAX_DIGITAL,
};
pub use native::{NativeCapabilities, NativeGamepad, NativeState};
pub use slot::{RefreshOutcome, SlotView};
