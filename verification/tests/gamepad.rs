use rusty_xinput::gamepad::{
    XINPUT_GAMEPAD_A, XINPUT_GAMEPAD_B, XINPUT_GAMEPAD_BACK, XINPUT_GAMEPAD_DPAD_DOWN,
    XINPUT_GAMEPAD_DPAD_LEFT, XINPUT_GAMEPAD_DPAD_RIGHT, XINPUT_GAMEPAD_DPAD_UP,
    XINPUT_GAMEPAD_LEFT_SHOULDER, XINPUT_GAMEPAD_LEFT_THUMB, XINPUT_GAMEPAD_RIGHT_SHOULDER,
    XINPUT_GAMEPAD_RIGHT_THUMB, XINPUT_GAMEPAD_START, XINPUT_GAMEPAD_X, XINPUT_GAMEPAD_Y,
};
use rusty_xinput::{XInputGamepad, XInputRawState, XInputState};

fn state(packet_number: u32, buttons: u16, left_trigger: u8, right_trigger: u8) -> XInputState {
    XInputState {
        raw: XInputRawState {
            packet_number,
            gamepad: XInputGamepad {
                buttons,
                left_trigger,
                right_trigger,
                thumb_lx: -120,
                thumb_ly: 340,
                thumb_rx: 32767,
                thumb_ry: -32768,
            },
        },
    }
}

fn pressed(s: &XInputState) -> Vec<bool> {
    vec![
        s.north_button(),
        s.south_button(),
        s.east_button(),
        s.west_button(),
        s.arrow_up(),
        s.arrow_down(),
        s.arrow_left(),
        s.arrow_right(),
        s.start_button(),
        s.select_button(),
        s.left_shoulder(),
        s.right_shoulder(),
        s.left_thumb_button(),
        s.right_thumb_button(),
    ]
}

const MASKS: [u16; 14] = [
    XINPUT_GAMEPAD_Y,
    XINPUT_GAMEPAD_A,
    XINPUT_GAMEPAD_B,
    XINPUT_GAMEPAD_X,
    XINPUT_GAMEPAD_DPAD_UP,
    XINPUT_GAMEPAD_DPAD_DOWN,
    XINPUT_GAMEPAD_DPAD_LEFT,
    XINPUT_GAMEPAD_DPAD_RIGHT,
    XINPUT_GAMEPAD_START,
    XINPUT_GAMEPAD_BACK,
    XINPUT_GAMEPAD_LEFT_SHOULDER,
    XINPUT_GAMEPAD_RIGHT_SHOULDER,
    XINPUT_GAMEPAD_LEFT_THUMB,
    XINPUT_GAMEPAD_RIGHT_THUMB,
];

#[test]
fn no_buttons_pressed() {
    let s = state(1, 0, 0, 0);
    assert_eq!(pressed(&s), vec![false; 14]);
}

#[test]
fn all_buttons_pressed() {
    let s = state(1, 0xFFFF, 0, 0);
    assert_eq!(pressed(&s), vec![true; 14]);
}

#[test]
fn each_button_reads_only_its_own_bit() {
    for (i, mask) in MASKS.iter().enumerate() {
        let s = state(1, *mask, 0, 0);
        let mut expected = vec![false; 14];
        expected[i] = true;
        assert_eq!(pressed(&s), expected, "mask {:#06x}", mask);
    }
}

#[test]
fn button_bit_positions() {
    assert!(state(1, 0x8000, 0, 0).north_button());
    assert!(state(1, 0x1000, 0, 0).south_button());
    assert!(state(1, 0x2000, 0, 0).east_button());
    assert!(state(1, 0x4000, 0, 0).west_button());
    assert!(state(1, 0x0001, 0, 0).arrow_up());
    assert!(state(1, 0x0002, 0, 0).arrow_down());
    assert!(state(1, 0x0004, 0, 0).arrow_left());
    assert!(state(1, 0x0008, 0, 0).arrow_right());
    assert!(state(1, 0x0010, 0, 0).start_button());
    assert!(state(1, 0x0020, 0, 0).select_button());
    assert!(state(1, 0x0040, 0, 0).left_thumb_button());
    assert!(state(1, 0x0080, 0, 0).right_thumb_button());
    assert!(state(1, 0x0100, 0, 0).left_shoulder());
    assert!(state(1, 0x0200, 0, 0).right_shoulder());
}

#[test]
fn shoulders_are_told_apart() {
    let left = state(1, 0x0100, 0, 0);
    assert!(left.left_shoulder());
    assert!(!left.right_shoulder());
    let right = state(1, 0x0200, 0, 0);
    assert!(!right.left_shoulder());
    assert!(right.right_shoulder());
}

#[test]
fn triggers_raw_and_thresholded() {
    let s = state(1, 0, 30, 29);
    assert_eq!(s.left_trigger(), 30);
    assert_eq!(s.right_trigger(), 29);
    assert!(s.left_trigger_bool());
    assert!(!s.right_trigger_bool());
    assert_eq!(XInputState::TRIGGER_THRESHOLD, 30);
    let full = state(1, 0, 255, 0);
    assert!(full.left_trigger_bool());
    assert!(!full.right_trigger_bool());
}

#[test]
fn sticks_raw() {
    let s = state(1, 0, 0, 0);
    assert_eq!(s.left_stick_raw(), (-120, 340));
    assert_eq!(s.right_stick_raw(), (32767, -32768));
}

#[test]
fn default_deadzones() {
    assert_eq!(XInputState::LEFT_STICK_DEADZONE, 7849);
    assert_eq!(XInputState::RIGHT_STICK_DEADZONE, 8689);
}

#[test]
fn equality_looks_at_packet_number_only() {
    let a = state(5, 0xFFFF, 255, 255);
    let b = state(5, 0, 0, 0);
    let c = state(6, 0xFFFF, 255, 255);
    assert!(a == b);
    assert!(b == a);
    assert!(a == a);
    assert!(a != c);
}

#[test]
fn debug_text() {
    assert_eq!(state(3, 0x1234, 9, 9).to_debug_string(), "XInputState (_)");
    assert_eq!(state(4, 0, 0, 0).to_debug_string(), "XInputState (_)");
}
