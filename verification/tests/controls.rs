use blackflower::controls::{
    align_up, first_execution_tick, gameplay_active, movement_keys, ControlCadence,
    ControlMappingError, ControlWindow, ScheduledControl,
};
use blackflower::input::{ElementState, InputContext, InputCore};

const KEY_A: u32 = 0;
const KEY_D: u32 = 3;
const KEY_S: u32 = 18;
const KEY_W: u32 = 22;

const WINDOW: ControlWindow = ControlWindow { max_future_ticks: 24, grace_ticks: 12 };

#[test]
fn fresh_timeline_aligns_the_first_control() {
    let controls = ControlCadence::new();
    let prepared = controls.schedule(5, 12, WINDOW).expect("scheduled").expect("fits");
    assert_eq!(prepared, ScheduledControl { execute_tick: 20, reset_timeline: false });
}

#[test]
fn user_interface_input_is_neutral_and_stalled_cadence_restarts() {
    let mut input = InputCore::new();
    input.set_focused(true);
    input.keyboard_input(KEY_W, ElementState::Pressed, false);
    let sample = input.take_sample();
    assert!(sample.keys.is_held(KEY_W));
    assert_eq!(movement_keys(&sample, KEY_D, KEY_A, KEY_W, KEY_S), (0, 0));

    let mut controls = ControlCadence::new();
    let first = controls.schedule(8, 4, WINDOW).expect("scheduled").expect("fits");
    assert_eq!(first.execute_tick, 12);
    controls.commit(first.execute_tick);

    let restarted = controls.schedule(40, 4, WINDOW).expect("scheduled").expect("fits");
    assert!(restarted.reset_timeline);
    assert_eq!(restarted.execute_tick, 44);
}

#[test]
fn increased_network_lead_rebases_the_consecutive_control_timeline() {
    let mut controls = ControlCadence::new();
    let first = controls.schedule(8, 4, WINDOW).expect("scheduled").expect("fits");
    assert_eq!(first.execute_tick, 12);
    controls.commit(first.execute_tick);

    let rebased = controls.schedule(9, 24, WINDOW).expect("scheduled").expect("fits");
    assert_eq!(rebased.execute_tick, 28);
    assert!(rebased.reset_timeline);
}

#[test]
fn input_lead_is_clamped_to_the_server_future_window() {
    let controls = ControlCadence::new();
    let prepared = controls.schedule(5, 1_000, WINDOW).expect("scheduled").expect("fits");
    assert_eq!(prepared.execute_tick, 28);
}

#[test]
fn consecutive_controls_continue_and_wait_beyond_the_window() {
    let mut controls = ControlCadence::new();
    controls.commit(100);
    assert_eq!(controls.next_execute_tick(), Some(104));
    let next = controls.schedule(96, 4, WINDOW).expect("scheduled").expect("fits");
    assert_eq!(next, ScheduledControl { execute_tick: 104, reset_timeline: false });
    controls.commit(200);
    assert_eq!(controls.schedule(96, 4, WINDOW), Ok(None));
    controls.reset();
    assert_eq!(controls.next_execute_tick(), None);
    controls.commit(u64::MAX - 2);
    assert_eq!(controls.next_execute_tick(), None);
}

#[test]
fn tick_arithmetic_reports_overflow() {
    assert_eq!(align_up(5, 4), Ok(8));
    assert_eq!(align_up(8, 4), Ok(8));
    assert_eq!(align_up(u64::MAX - 1, 4), Err(ControlMappingError::TickOverflow));
    assert_eq!(first_execution_tick(5, 2, 100, WINDOW), Ok(12));
    assert_eq!(first_execution_tick(u64::MAX - 1, 4, u64::MAX, WINDOW), Err(ControlMappingError::TickOverflow));
    assert_eq!(
        ControlCadence::new().schedule(u64::MAX - 10, 4, WINDOW),
        Err(ControlMappingError::TickOverflow)
    );
}

#[test]
fn gameplay_keys_give_axes_before_normalization() {
    let mut input = InputCore::new();
    input.set_focused(true);
    input.set_context(InputContext::GameplayCaptured);
    input.keyboard_input(KEY_W, ElementState::Pressed, false);
    input.keyboard_input(KEY_D, ElementState::Pressed, false);
    let sample = input.take_sample();
    assert_eq!(movement_keys(&sample, KEY_D, KEY_A, KEY_W, KEY_S), (1, 1));
    input.keyboard_input(KEY_S, ElementState::Pressed, false);
    input.keyboard_input(KEY_A, ElementState::Pressed, false);
    let sample = input.take_sample();
    assert_eq!(movement_keys(&sample, KEY_D, KEY_A, KEY_W, KEY_S), (0, 0));
    input.keyboard_input(KEY_D, ElementState::Released, false);
    input.keyboard_input(KEY_W, ElementState::Released, false);
    let sample = input.take_sample();
    assert_eq!(movement_keys(&sample, KEY_D, KEY_A, KEY_W, KEY_S), (-1, -1));
    assert!(gameplay_active(true, InputContext::GameplayCaptured));
    assert!(!gameplay_active(false, InputContext::GameplayCaptured));
    assert!(!gameplay_active(true, InputContext::UserInterface));
}
