//! A verified core for reading XInput gamepads: the button and trigger
//! queries on a polled controller state, the bookkeeping that decides how the
//! XInput DLL is located and loaded, and the interpretation of the return
//! codes of the XInput entry points.

pub mod gamepad;
pub mod loader;
pub mod poll;
pub mod shared;
pub mod stick;
pub mod wide;

pub use gamepad::{XInputGamepad, XInputRawState, XInputState};
pub use loader::XInputLoadingFailure;
