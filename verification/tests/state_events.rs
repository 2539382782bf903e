use sensor_client::events::{
    apply_event, drain_events, next_state, InputEvent, KeyConfig, LoopState, Tick,
};
use sensor_client::protocol::{mouse_message, tick_messages};
use sensor_client::state::InputState;

fn key_down(name: &str) -> InputEvent {
    InputEvent::KeyDown { name: name.to_string(), repeat: false }
}

fn key_up(name: &str) -> InputEvent {
    InputEvent::KeyUp { name: name.to_string(), repeat: false }
}

fn one_tick(state: InputState, events: Vec<InputEvent>) -> (InputState, Tick, Vec<String>) {
    let cfg = KeyConfig::defaults();
    let (state, tick) = drain_events(state, &events, &cfg);
    let msgs = tick_messages(&state, &tick);
    (state, tick, msgs)
}

#[test]
fn key_down_twice_changes_nothing_after_first() {
    let cfg = KeyConfig::defaults();
    let ev = key_down("A");
    let mut state = InputState::new();
    let mut tick = Tick::init();
    apply_event(&mut state, &mut tick, &ev, &cfg);
    let after_first = state;
    let tick_after_first = tick;
    apply_event(&mut state, &mut tick, &ev, &cfg);
    assert_eq!(state, after_first);
    assert_eq!(tick, tick_after_first);
    assert_eq!(state.snapshot_keyboard(), 1u128 << 10);
}

#[test]
fn game_key_sequence() {
    let (state, _, msgs) = one_tick(InputState::new(), vec![key_down("Z")]);
    assert_eq!(msgs, vec!["OSU|1"]);
    let (state, _, msgs) = one_tick(state, vec![key_down("X")]);
    assert_eq!(msgs, vec!["OSU|3"]);
    let (_, _, msgs) = one_tick(state, vec![key_up("Z")]);
    assert_eq!(msgs, vec!["OSU|2"]);
}

#[test]
fn wheel_and_button_in_one_tick() {
    let events = vec![InputEvent::MouseWheel { y: -1 }, InputEvent::MouseButtonDown];
    let (mut state, tick, msgs) = one_tick(InputState::new(), events);
    assert!(msgs.is_empty());
    assert!(tick.mouse);
    assert!(!tick.quit);
    assert_eq!(tick.wheel, -1);
    let line = mouse_message(&mut state, "0", "0", tick.wheel, true, false);
    assert_eq!(line, "MOUSE|0;0;-1;1");
}

#[test]
fn unmapped_key_still_sends_unchanged_register() {
    let (state, tick, msgs) = one_tick(InputState::new(), vec![key_down("Right Ctrl")]);
    assert!(tick.keyboard);
    assert_eq!(state.snapshot_keyboard(), 0);
    assert_eq!(msgs, vec!["KEYBOARD|0"]);
}

#[test]
fn repeat_transitions_are_ignored() {
    let events = vec![InputEvent::KeyDown { name: "Z".to_string(), repeat: true }];
    let (state, tick, msgs) = one_tick(InputState::new(), events);
    assert_eq!(state.snapshot_legacy(), 0);
    assert!(!tick.legacy);
    assert!(msgs.is_empty());
}

#[test]
fn mapped_key_updates_keyboard_channel() {
    let (state, tick, msgs) = one_tick(InputState::new(), vec![key_down("Space")]);
    assert!(tick.keyboard);
    assert!(!tick.legacy);
    assert_eq!(state.snapshot_keyboard(), 1u128 << 50);
    assert_eq!(msgs, vec![format!("KEYBOARD|{}", 1u128 << 50)]);
    let (state, _, msgs) = one_tick(state, vec![key_up("Space")]);
    assert_eq!(state.snapshot_keyboard(), 0);
    assert_eq!(msgs, vec!["KEYBOARD|0"]);
}

#[test]
fn quit_stops_the_loop_after_the_tick() {
    let events = vec![InputEvent::Quit, key_down("Z")];
    let (state, tick, msgs) = one_tick(InputState::new(), events);
    assert!(tick.quit);
    // The tick still finishes: the key event after the quit signal is applied
    // and its send is still owed.
    assert_eq!(state.snapshot_legacy(), 1);
    assert_eq!(msgs, vec!["OSU|1"]);
    assert_eq!(next_state(LoopState::Running, tick.quit), LoopState::Stopped);
    assert_eq!(next_state(LoopState::Stopped, false), LoopState::Stopped);
    assert_eq!(next_state(LoopState::Running, false), LoopState::Running);
}

#[test]
fn mouse_buttons_are_level_triggered() {
    let mut state = InputState::new();
    state.sample_mouse(true, true);
    assert_eq!(state.snapshot_mouse(), 3);
    // A fresh sample with both buttons released clears the bits, with no
    // release event needed.
    state.sample_mouse(false, false);
    assert_eq!(state.snapshot_mouse(), 0);
    state.sample_mouse(false, true);
    assert_eq!(state.snapshot_mouse(), 2);
}

#[test]
fn both_channels_in_fixed_order() {
    let events = vec![key_down("Z"), key_down("Space")];
    let (state, _, msgs) = one_tick(InputState::new(), events);
    assert_eq!(state.snapshot_legacy(), 1);
    assert_eq!(msgs, vec!["OSU|1".to_string(), format!("KEYBOARD|{}", 1u128 << 50)]);
}
