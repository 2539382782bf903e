use sensor_client::keymap::lookup;
use sensor_client::protocol::{encode_keyboard, encode_legacy, encode_mouse, title_label};
use sensor_client::state::InputState;

#[test]
fn legacy_round_trip_value_three() {
    assert_eq!(encode_legacy(3), "OSU|3");
}

#[test]
fn keyboard_round_trip_bit_ten() {
    let mut state = InputState::new();
    let idx = lookup("A").unwrap();
    assert_eq!(idx, 10);
    state.apply_keyboard(idx, true);
    assert_eq!(state.snapshot_keyboard(), 1u128 << 10);
    assert_eq!(encode_keyboard(state.snapshot_keyboard()), "KEYBOARD|1024");
}

#[test]
fn legacy_values() {
    assert_eq!(encode_legacy(0), "OSU|0");
    assert_eq!(encode_legacy(1), "OSU|1");
    assert_eq!(encode_legacy(2), "OSU|2");
    assert_eq!(encode_legacy(255), "OSU|255");
}

#[test]
fn keyboard_values() {
    assert_eq!(encode_keyboard(0), "KEYBOARD|0");
    assert_eq!(encode_keyboard(10), "KEYBOARD|10");
    assert_eq!(
        encode_keyboard(u128::MAX),
        "KEYBOARD|340282366920938463463374607431768211455"
    );
}

#[test]
fn mouse_line_layout() {
    assert_eq!(encode_mouse("1.5", "-0.9", -1, 3), "MOUSE|1.5;-0.9;-1;3");
    assert_eq!(encode_mouse("0", "0", 0, 0), "MOUSE|0;0;0;0");
    assert_eq!(
        encode_mouse("-2.25", "4", i32::MIN, 255),
        format!("MOUSE|-2.25;4;{};255", i32::MIN)
    );
}

#[test]
fn startup_label() {
    assert_eq!(title_label("10.0.0.5", 1), "10.0.0.5@1ms");
    assert_eq!(title_label("example.test", 250), "example.test@250ms");
}
