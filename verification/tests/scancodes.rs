use spice_client::input_channel::{cursor_motion, InputCommand};
use spice_client::scancodes::{scancode_to_xt, KeyCode};

#[test]
fn plain_keys_have_set_one_codes() {
    assert_eq!(scancode_to_xt(KeyCode::Escape), Some(0x01));
    assert_eq!(scancode_to_xt(KeyCode::Digit1), Some(0x02));
    assert_eq!(scancode_to_xt(KeyCode::Digit0), Some(0x0b));
    assert_eq!(scancode_to_xt(KeyCode::KeyQ), Some(0x10));
    assert_eq!(scancode_to_xt(KeyCode::KeyA), Some(0x1e));
    assert_eq!(scancode_to_xt(KeyCode::KeyZ), Some(0x2c));
    assert_eq!(scancode_to_xt(KeyCode::Enter), Some(0x1c));
    assert_eq!(scancode_to_xt(KeyCode::Space), Some(0x39));
    assert_eq!(scancode_to_xt(KeyCode::F1), Some(0x3b));
    assert_eq!(scancode_to_xt(KeyCode::F12), Some(0x58));
    assert_eq!(scancode_to_xt(KeyCode::ShiftLeft), Some(0x2a));
}

#[test]
fn prefixed_keys_carry_0x100() {
    assert_eq!(scancode_to_xt(KeyCode::ControlRight), Some(0x11d));
    assert_eq!(scancode_to_xt(KeyCode::AltRight), Some(0x138));
    assert_eq!(scancode_to_xt(KeyCode::ArrowUp), Some(0x148));
    assert_eq!(scancode_to_xt(KeyCode::Delete), Some(0x153));
    assert_eq!(scancode_to_xt(KeyCode::NumpadEnter), Some(0x11c));
    assert_eq!(scancode_to_xt(KeyCode::SuperLeft), Some(0x15b));
}

#[test]
fn other_keys_have_no_code() {
    assert_eq!(scancode_to_xt(KeyCode::Other), None);
}

#[test]
fn sample_of_keys_have_distinct_codes() {
    let keys = [
        KeyCode::Enter,
        KeyCode::NumpadEnter,
        KeyCode::ControlLeft,
        KeyCode::ControlRight,
        KeyCode::Numpad8,
        KeyCode::ArrowUp,
        KeyCode::Digit1,
        KeyCode::Numpad1,
        KeyCode::End,
    ];
    let codes: Vec<u32> = keys.iter().map(|k| scancode_to_xt(*k).unwrap()).collect();
    for i in 0..codes.len() {
        for j in 0..codes.len() {
            if i != j {
                assert_ne!(codes[i], codes[j]);
            }
        }
    }
}

#[test]
fn cursor_motion_ignores_offsets() {
    let m = InputCommand::Motion { dx: 5, dy: -5, button_state: 0 };
    assert_eq!(cursor_motion(0, 0), m);
    assert_eq!(cursor_motion(-100, 42), m);
}
