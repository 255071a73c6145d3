use blackflower::input::{ElementState, InputContext, InputCore};

const KEY_W: u32 = 22;
const KEY_A: u32 = 0;
const LEFT: u32 = 1;

#[test]
fn focus_loss_neutralizes_every_device() {
    let mut input = InputCore::new();
    assert!(!input.set_focused(true));
    assert!(input.set_context(InputContext::GameplayCaptured));
    input.keyboard_input(KEY_W, ElementState::Pressed, false);
    input.mouse_input(LEFT, ElementState::Pressed);
    input.modifiers_changed(4);
    assert!(input.cursor_entered());

    assert!(input.set_focused(false));
    let sample = input.take_sample();
    assert!(!sample.focused);
    assert_eq!(sample.context, InputContext::UserInterface);
    assert_eq!(sample.modifiers, 0);
    assert!(!sample.keys.is_held(KEY_W));
    assert!(!sample.keys.was_pressed(KEY_W));
    assert!(!sample.buttons.is_held(LEFT));
    assert!(!input.cursor_inside());
}

#[test]
fn synthetic_focus_press_is_ignored() {
    let mut input = InputCore::new();
    input.set_focused(true);
    input.keyboard_input(KEY_W, ElementState::Pressed, true);
    assert!(!input.take_sample().keys.is_held(KEY_W));
    input.keyboard_input(KEY_W, ElementState::Pressed, false);
    input.keyboard_input(KEY_W, ElementState::Released, true);
    let sample = input.take_sample();
    assert!(!sample.keys.is_held(KEY_W));
    assert!(sample.keys.was_released(KEY_W));
}

#[test]
fn snapshots_consume_edges_but_preserve_holds() {
    let mut input = InputCore::new();
    input.set_focused(true);
    input.keyboard_input(KEY_W, ElementState::Pressed, false);
    input.keyboard_input(KEY_A, ElementState::Pressed, false);
    input.keyboard_input(KEY_A, ElementState::Released, false);

    let first = input.take_sample();
    assert!(first.keys.is_held(KEY_W));
    assert!(first.keys.was_pressed(KEY_W));
    assert!(first.keys.was_pressed(KEY_A));
    assert!(first.keys.was_released(KEY_A));
    assert!(!first.keys.is_held(KEY_A));

    let second = input.take_sample();
    assert!(second.keys.is_held(KEY_W));
    assert!(!second.keys.was_pressed(KEY_W));
    assert!(!second.keys.was_released(KEY_A));
}

#[test]
fn raw_motion_requires_focused_gameplay_capture() {
    let mut input = InputCore::new();
    assert!(!input.accepts_raw_motion());
    input.set_focused(true);
    assert!(!input.accepts_raw_motion());
    input.set_context(InputContext::GameplayCaptured);
    assert!(input.accepts_raw_motion());
    assert!(!input.set_context(InputContext::GameplayCaptured));
}

#[test]
fn unfocused_devices_are_ignored() {
    let mut input = InputCore::new();
    input.keyboard_input(KEY_W, ElementState::Pressed, false);
    input.mouse_input(LEFT, ElementState::Pressed);
    input.modifiers_changed(1);
    assert!(!input.cursor_entered());
    let sample = input.take_sample();
    assert!(!sample.keys.is_held(KEY_W));
    assert!(!sample.buttons.was_pressed(LEFT));
    assert_eq!(sample.modifiers, 0);
    input.set_focused(true);
    input.cursor_entered();
    assert!(input.cursor_inside());
    input.cursor_left();
    assert!(!input.cursor_inside());
}
