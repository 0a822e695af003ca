//! Polling a controller and setting its rumble: when a call into XInput is
//! made at all, and what its return code means.

use vstd::prelude::*;

use crate::gamepad::{XInputRawState, XInputState};
use crate::loader::STATUS_ACTIVE;

verus! {

/// The return code of the XInput entry points when the call succeeded.
pub const ERROR_SUCCESS: u32 = 0;

/// The number of controller slots; slots are numbered from zero.
pub const XUSER_MAX_COUNT: u32 = 4;

/// Whether a controller slot may be polled or rumbled: only once XInput is
/// active (the status word is [`STATUS_ACTIVE`]) and only for one of the
/// [`XUSER_MAX_COUNT`] slots.
pub fn can_call(status: usize, user_index: u32) -> (r: bool)
    ensures
        r == (status == STATUS_ACTIVE && user_index < XUSER_MAX_COUNT),
{
    status == STATUS_ACTIVE && user_index < XUSER_MAX_COUNT
}

/// The rumble speeds to set on a controller. Each speed is the scale of the
/// motor's intensity: 0 is 0%, and 65,535 is 100%.
#[derive(Debug, Copy, Clone, PartialEq, Eq, Structural)]
pub struct XInputVibration {
    /// The speed of the left motor (low-frequency on a 360 controller).
    pub left_motor_speed: u16,
    /// The speed of the right motor (high-frequency on a 360 controller).
    pub right_motor_speed: u16,
}

/// The rumble call to make, if any, when asked to set the motor speeds of
/// slot `user_index` while the status word is `status`: the slot and the
/// speeds, handed over unchanged, when [`can_call`] allows a call; nothing
/// otherwise.
pub fn set_state_request(
    status: usize,
    user_index: u32,
    left_motor_speed: u16,
    right_motor_speed: u16,
) -> (r: Option<(u32, XInputVibration)>)
    ensures
        r == (if status == STATUS_ACTIVE && user_index < XUSER_MAX_COUNT {
            Some((user_index, XInputVibration { left_motor_speed, right_motor_speed }))
        } else {
            None
        }),
{
    if can_call(status, user_index) {
        Some((user_index, XInputVibration { left_motor_speed, right_motor_speed }))
    } else {
        None
    }
}

/// The answer to a poll whose call returned `return_status` and filled in
/// `polled`: the state on success, and nothing otherwise (no controller in
/// the slot, or any other error).
pub fn get_state_result(return_status: u32, polled: XInputRawState) -> (r: Option<XInputState>)
    ensures
        r == (if return_status == ERROR_SUCCESS {
            Some(XInputState { raw: polled })
        } else {
            None
        }),
{
    if return_status == ERROR_SUCCESS {
        Some(XInputState { raw: polled })
    } else {
        None
    }
}

/// The answer to a rumble request whose call returned `return_status`:
/// `Some(())` on success, and nothing otherwise.
pub fn set_state_result(return_status: u32) -> (r: Option<()>)
    ensures
        r == (if return_status == ERROR_SUCCESS {
            Some(())
        } else {
            None
        }),
{
    if return_status == ERROR_SUCCESS {
        Some(())
    } else {
        None
    }
}

} // verus!
