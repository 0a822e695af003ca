//! The state of one XInput controller as the driver reports it, and the
//! read-only queries on it.

use vstd::prelude::*;
use vstd::std_specs::cmp::PartialEqSpec;

verus! {

/// Bit of `buttons` held while the directional pad is pressed up.
pub const XINPUT_GAMEPAD_DPAD_UP: u16 = 0x0001;
/// Bit of `buttons` held while the directional pad is pressed down.
pub const XINPUT_GAMEPAD_DPAD_DOWN: u16 = 0x0002;
/// Bit of `buttons` held while the directional pad is pressed left.
pub const XINPUT_GAMEPAD_DPAD_LEFT: u16 = 0x0004;
/// Bit of `buttons` held while the directional pad is pressed right.
pub const XINPUT_GAMEPAD_DPAD_RIGHT: u16 = 0x0008;
/// Bit of `buttons` held while "start" is pressed.
pub const XINPUT_GAMEPAD_START: u16 = 0x0010;
/// Bit of `buttons` held while "back" is pressed.
pub const XINPUT_GAMEPAD_BACK: u16 = 0x0020;
/// Bit of `buttons` held while the left stick is pressed inward.
pub const XINPUT_GAMEPAD_LEFT_THUMB: u16 = 0x0040;
/// Bit of `buttons` held while the right stick is pressed inward.
pub const XINPUT_GAMEPAD_RIGHT_THUMB: u16 = 0x0080;
/// Bit of `buttons` held while the upper left shoulder button is pressed.
pub const XINPUT_GAMEPAD_LEFT_SHOULDER: u16 = 0x0100;
/// Bit of `buttons` held while the upper right shoulder button is pressed.
pub const XINPUT_GAMEPAD_RIGHT_SHOULDER: u16 = 0x0200;
/// Bit of `buttons` held while the A button is pressed.
pub const XINPUT_GAMEPAD_A: u16 = 0x1000;
/// Bit of `buttons` held while the B button is pressed.
pub const XINPUT_GAMEPAD_B: u16 = 0x2000;
/// Bit of `buttons` held while the X button is pressed.
pub const XINPUT_GAMEPAD_X: u16 = 0x4000;
/// Bit of `buttons` held while the Y button is pressed.
pub const XINPUT_GAMEPAD_Y: u16 = 0x8000;
/// The driver's suggested dead-zone of the left stick.
pub const XINPUT_GAMEPAD_LEFT_THUMB_DEADZONE: i16 = 7849;
/// The driver's suggested dead-zone of the right stick.
pub const XINPUT_GAMEPAD_RIGHT_THUMB_DEADZONE: i16 = 8689;
/// The driver's suggested trigger value from which a trigger counts as pressed.
pub const XINPUT_GAMEPAD_TRIGGER_THRESHOLD: u8 = 30;

/// The controls of a gamepad at one moment, laid out as the driver reports them.
#[derive(Clone, Copy)]
pub struct XInputGamepad {
    /// One bit per digital button; see the `XINPUT_GAMEPAD_*` masks.
    pub buttons: u16,
    /// The left analog trigger, 0 (released) to 255 (fully pressed).
    pub left_trigger: u8,
    /// The right analog trigger, 0 (released) to 255 (fully pressed).
    pub right_trigger: u8,
    /// Left stick, X axis: positive is to the right.
    pub thumb_lx: i16,
    /// Left stick, Y axis: positive is up.
    pub thumb_ly: i16,
    /// Right stick, X axis: positive is to the right.
    pub thumb_rx: i16,
    /// Right stick, Y axis: positive is up.
    pub thumb_ry: i16,
}

/// One polled controller state: a packet number, which changes whenever the
/// controller state changes, and the controls.
#[derive(Clone, Copy)]
pub struct XInputRawState {
    /// Stays the same between two polls exactly when nothing changed.
    pub packet_number: u32,
    /// The controls.
    pub gamepad: XInputGamepad,
}

/// A read-only view of a polled controller state.
///
/// Two states are equal exactly when their packet numbers are equal: for
/// states obtained from the driver that says that the controller did not
/// change between the two polls.
pub struct XInputState {
    /// The value being wrapped.
    pub raw: XInputRawState,
}

/// Whether any bit of `mask` is set in `buttons`.
pub open spec fn held(buttons: u16, mask: u16) -> bool {
    buttons & mask != 0
}

/// Each button query reads exactly one bit of `buttons`, and no two queries
/// read the same bit: Y is bit 15, X bit 14, B bit 13, A bit 12, the right
/// and left shoulders bits 9 and 8, the right and left sticks bits 7 and 6,
/// back bit 5, start bit 4, and the directional pad right, left, down and up
/// bits 3 to 0.
pub proof fn lemma_button_bits(b: u16)
    by (bit_vector)
    ensures
        held(b, XINPUT_GAMEPAD_Y) == ((b >> 15u16) & 1u16 == 1u16),
        held(b, XINPUT_GAMEPAD_X) == ((b >> 14u16) & 1u16 == 1u16),
        held(b, XINPUT_GAMEPAD_B) == ((b >> 13u16) & 1u16 == 1u16),
        held(b, XINPUT_GAMEPAD_A) == ((b >> 12u16) & 1u16 == 1u16),
        held(b, XINPUT_GAMEPAD_RIGHT_SHOULDER) == ((b >> 9u16) & 1u16 == 1u16),
        held(b, XINPUT_GAMEPAD_LEFT_SHOULDER) == ((b >> 8u16) & 1u16 == 1u16),
        held(b, XINPUT_GAMEPAD_RIGHT_THUMB) == ((b >> 7u16) & 1u16 == 1u16),
        held(b, XINPUT_GAMEPAD_LEFT_THUMB) == ((b >> 6u16) & 1u16 == 1u16),
        held(b, XINPUT_GAMEPAD_BACK) == ((b >> 5u16) & 1u16 == 1u16),
        held(b, XINPUT_GAMEPAD_START) == ((b >> 4u16) & 1u16 == 1u16),
        held(b, XINPUT_GAMEPAD_DPAD_RIGHT) == ((b >> 3u16) & 1u16 == 1u16),
        held(b, XINPUT_GAMEPAD_DPAD_LEFT) == ((b >> 2u16) & 1u16 == 1u16),
        held(b, XINPUT_GAMEPAD_DPAD_DOWN) == ((b >> 1u16) & 1u16 == 1u16),
        held(b, XINPUT_GAMEPAD_DPAD_UP) == (b & 1u16 == 1u16),
{
}

/// Equality of states is an equivalence relation that looks at the packet
/// numbers alone: states with the same packet number are equal whatever
/// their controls hold.
pub proof fn lemma_state_equality(a: XInputState, b: XInputState, c: XInputState)
    ensures
        a.eq_spec(&b) <==> a.raw.packet_number == b.raw.packet_number,
        a.eq_spec(&a),
        a.eq_spec(&b) ==> b.eq_spec(&a),
        a.eq_spec(&b) && b.eq_spec(&c) ==> a.eq_spec(&c),
{
}

impl PartialEq for XInputState {
    fn eq(&self, other: &XInputState) -> (r: bool) {
        self.raw.packet_number == other.raw.packet_number
    }
}

impl vstd::std_specs::cmp::PartialEqSpecImpl for XInputState {
    open spec fn obeys_eq_spec() -> bool {
        true
    }

    open spec fn eq_spec(&self, other: &XInputState) -> bool {
        self.raw.packet_number == other.raw.packet_number
    }
}

impl Eq for XInputState {
}

impl XInputState {
    /// The default threshold to count a trigger as being "pressed".
    pub const TRIGGER_THRESHOLD: u8 = XINPUT_GAMEPAD_TRIGGER_THRESHOLD;

    /// The suggested default deadzone for use with the left thumb stick.
    pub const LEFT_STICK_DEADZONE: i16 = XINPUT_GAMEPAD_LEFT_THUMB_DEADZONE;

    /// The suggested default deadzone for use with the right thumb stick.
    pub const RIGHT_STICK_DEADZONE: i16 = XINPUT_GAMEPAD_RIGHT_THUMB_DEADZONE;

    /// The text by which a state shows itself when debugging: the same for
    /// every state, since the packet number carries no meaning of its own.
    pub fn to_debug_string(&self) -> (r: String)
        ensures
            r@ == "XInputState (_)"@,
    {
        broadcast use vstd::string::group_string_axioms;

        "XInputState (_)".to_string()
    }

    /// The north button of the action button group.
    ///
    /// * Nintendo: X
    /// * Playstation: Triangle
    /// * XBox: Y
    pub fn north_button(&self) -> (r: bool)
        ensures
            r == held(self.raw.gamepad.buttons, XINPUT_GAMEPAD_Y),
    {
        self.raw.gamepad.buttons & XINPUT_GAMEPAD_Y != 0
    }

    /// The south button of the action button group.
    ///
    /// * Nintendo: B
    /// * Playstation: X
    /// * XBox: A
    pub fn south_button(&self) -> (r: bool)
        ensures
            r == held(self.raw.gamepad.buttons, XINPUT_GAMEPAD_A),
    {
        self.raw.gamepad.buttons & XINPUT_GAMEPAD_A != 0
    }

    /// The east button of the action button group.
    ///
    /// * Nintendo: A
    /// * Playstation: Circle
    /// * XBox: B
    pub fn east_button(&self) -> (r: bool)
        ensures
            r == held(self.raw.gamepad.buttons, XINPUT_GAMEPAD_B),
    {
        self.raw.gamepad.buttons & XINPUT_GAMEPAD_B != 0
    }

    /// The west button of the action button group.
    ///
    /// * Nintendo: Y
    /// * Playstation: Square
    /// * XBox: X
    pub fn west_button(&self) -> (r: bool)
        ensures
            r == held(self.raw.gamepad.buttons, XINPUT_GAMEPAD_X),
    {
        self.raw.gamepad.buttons & XINPUT_GAMEPAD_X != 0
    }

    /// The up button on the directional pad.
    pub fn arrow_up(&self) -> (r: bool)
        ensures
            r == held(self.raw.gamepad.buttons, XINPUT_GAMEPAD_DPAD_UP),
    {
        self.raw.gamepad.buttons & XINPUT_GAMEPAD_DPAD_UP != 0
    }

    /// The down button on the directional pad.
    pub fn arrow_down(&self) -> (r: bool)
        ensures
            r == held(self.raw.gamepad.buttons, XINPUT_GAMEPAD_DPAD_DOWN),
    {
        self.raw.gamepad.buttons & XINPUT_GAMEPAD_DPAD_DOWN != 0
    }

    /// The left button on the directional pad.
    pub fn arrow_left(&self) -> (r: bool)
        ensures
            r == held(self.raw.gamepad.buttons, XINPUT_GAMEPAD_DPAD_LEFT),
    {
        self.raw.gamepad.buttons & XINPUT_GAMEPAD_DPAD_LEFT != 0
    }

    /// The right button on the directional pad.
    pub fn arrow_right(&self) -> (r: bool)
        ensures
            r == held(self.raw.gamepad.buttons, XINPUT_GAMEPAD_DPAD_RIGHT),
    {
        self.raw.gamepad.buttons & XINPUT_GAMEPAD_DPAD_RIGHT != 0
    }

    /// The "start" button.
    ///
    /// * Nintendo: Start (NES / NES), '+' (Pro Controller)
    /// * Playstation: Start
    /// * XBox: Start
    pub fn start_button(&self) -> (r: bool)
        ensures
            r == held(self.raw.gamepad.buttons, XINPUT_GAMEPAD_START),
    {
        self.raw.gamepad.buttons & XINPUT_GAMEPAD_START != 0
    }

    /// The "not start" button.
    ///
    /// * Nintendo: Select (NES / NES), '-' (Pro Controller)
    /// * Playstation: Select
    /// * XBox: Back
    pub fn select_button(&self) -> (r: bool)
        ensures
            r == held(self.raw.gamepad.buttons, XINPUT_GAMEPAD_BACK),
    {
        self.raw.gamepad.buttons & XINPUT_GAMEPAD_BACK != 0
    }

    /// The upper left shoulder button.
    ///
    /// * Nintendo: L
    /// * Playstation: L1
    /// * XBox: LB
    pub fn left_shoulder(&self) -> (r: bool)
        ensures
            r == held(self.raw.gamepad.buttons, XINPUT_GAMEPAD_LEFT_SHOULDER),
    {
        self.raw.gamepad.buttons & XINPUT_GAMEPAD_LEFT_SHOULDER != 0
    }

    /// The upper right shoulder button.
    ///
    /// * Nintendo: R
    /// * Playstation: R1
    /// * XBox: RB
    pub fn right_shoulder(&self) -> (r: bool)
        ensures
            r == held(self.raw.gamepad.buttons, XINPUT_GAMEPAD_RIGHT_SHOULDER),
    {
        self.raw.gamepad.buttons & XINPUT_GAMEPAD_RIGHT_SHOULDER != 0
    }

    /// The left thumb stick being pressed inward.
    ///
    /// * Nintendo: (L)
    /// * Playstation: L3
    /// * XBox: (L)
    pub fn left_thumb_button(&self) -> (r: bool)
        ensures
            r == held(self.raw.gamepad.buttons, XINPUT_GAMEPAD_LEFT_THUMB),
    {
        self.raw.gamepad.buttons & XINPUT_GAMEPAD_LEFT_THUMB != 0
    }

    /// The right thumb stick being pressed inward.
    ///
    /// * Nintendo: (R)
    /// * Playstation: R3
    /// * XBox: (R)
    pub fn right_thumb_button(&self) -> (r: bool)
        ensures
            r == held(self.raw.gamepad.buttons, XINPUT_GAMEPAD_RIGHT_THUMB),
    {
        self.raw.gamepad.buttons & XINPUT_GAMEPAD_RIGHT_THUMB != 0
    }

    /// The lower left shoulder trigger. If you want to use this as a simple
    /// boolean it is suggested that you compare it to the `TRIGGER_THRESHOLD`
    /// constant.
    ///
    /// * Nintendo: ZL
    /// * Playstation: L2
    /// * XBox: LT
    pub fn left_trigger(&self) -> (r: u8)
        ensures
            r == self.raw.gamepad.left_trigger,
    {
        self.raw.gamepad.left_trigger
    }

    /// The lower right shoulder trigger. If you want to use this as a simple
    /// boolean it is suggested that you compare it to the `TRIGGER_THRESHOLD`
    /// constant.
    ///
    /// * Nintendo: ZR
    /// * Playstation: R2
    /// * XBox: RT
    pub fn right_trigger(&self) -> (r: u8)
        ensures
            r == self.raw.gamepad.right_trigger,
    {
        self.raw.gamepad.right_trigger
    }

    /// The lower left shoulder trigger as a bool using the default threshold.
    ///
    /// * Nintendo: ZL
    /// * Playstation: L2
    /// * XBox: LT
    pub fn left_trigger_bool(&self) -> (r: bool)
        ensures
            r == (self.raw.gamepad.left_trigger >= XINPUT_GAMEPAD_TRIGGER_THRESHOLD),
    {
        self.left_trigger() >= XInputState::TRIGGER_THRESHOLD
    }

    /// The lower right shoulder trigger as a bool using the default threshold.
    ///
    /// * Nintendo: ZR
    /// * Playstation: R2
    /// * XBox: RT
    pub fn right_trigger_bool(&self) -> (r: bool)
        ensures
            r == (self.raw.gamepad.right_trigger >= XINPUT_GAMEPAD_TRIGGER_THRESHOLD),
    {
        self.right_trigger() >= XInputState::TRIGGER_THRESHOLD
    }

    /// The left stick raw value.
    ///
    /// Positive values are to the right (X-axis) or up (Y-axis).
    pub fn left_stick_raw(&self) -> (r: (i16, i16))
        ensures
            r == (self.raw.gamepad.thumb_lx, self.raw.gamepad.thumb_ly),
    {
        (self.raw.gamepad.thumb_lx, self.raw.gamepad.thumb_ly)
    }

    /// The right stick raw value.
    ///
    /// Positive values are to the right (X-axis) or up (Y-axis).
    pub fn right_stick_raw(&self) -> (r: (i16, i16))
        ensures
            r == (self.raw.gamepad.thumb_rx, self.raw.gamepad.thumb_ry),
    {
        (self.raw.gamepad.thumb_rx, self.raw.gamepad.thumb_ry)
    }
}

} // verus!
