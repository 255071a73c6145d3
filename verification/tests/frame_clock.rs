use std::time::Duration;

use blackflower::frame_clock::{FrameClock, FrameDelta};

fn nanos(duration: Duration) -> u64 {
    u64::try_from(duration.as_nanos()).expect("fits")
}

fn seconds(delta: FrameDelta) -> f32 {
    match delta {
        FrameDelta::Nominal => 1.0 / 60.0,
        FrameDelta::Measured(elapsed) => Duration::from_nanos(elapsed).as_secs_f32(),
    }
}

#[test]
fn frame_clock_resets_and_clamps_long_suspension() {
    let started = 5_000_000_000u64;
    let mut clock = FrameClock::new();
    clock.resume(started);
    let normal = clock.delta(started + nanos(Duration::from_millis(10)));
    assert_eq!(normal, FrameDelta::Measured(10_000_000));
    assert_eq!(seconds(normal).to_bits(), 0.01_f32.to_bits());

    let clamped = clock.delta(started + nanos(Duration::from_secs(2)));
    assert_eq!(clamped, FrameDelta::Measured(250_000_000));
    assert_eq!(seconds(clamped).to_bits(), 0.25_f32.to_bits());

    clock.suspend();
    let resumed = clock.delta(started + nanos(Duration::from_secs(10)));
    assert_eq!(resumed, FrameDelta::Nominal);
    assert_eq!(seconds(resumed).to_bits(), (1.0_f32 / 60.0).to_bits());
}

#[test]
fn tiny_and_backward_steps_take_the_minimum() {
    let mut clock = FrameClock::new();
    clock.resume(1_000);
    assert_eq!(clock.delta(1_010), FrameDelta::Measured(1_000));
    assert_eq!(clock.delta(500), FrameDelta::Measured(1_000));
    assert_eq!(clock.previous, Some(500));
    assert_eq!(seconds(FrameDelta::Measured(1_000)).to_bits(), (1.0_f32 / 1_000_000.0).to_bits());
}
