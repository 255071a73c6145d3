use blackflower::scheduler::{
    describe_metrics, full_ticks, initialize, metric_u32, tick_started, TickPacer,
    NANOSECONDS_PER_SECOND, SIMULATION_TICK_RATE_HZ,
};

#[test]
fn pacer_accumulates_exactly_one_second_for_one_tick_rate_window() {
    let started = 1_000;
    let mut pacer = TickPacer::new(started);
    for _tick in 0..SIMULATION_TICK_RATE_HZ {
        pacer.advance();
    }
    assert_eq!(pacer.deadline() - started, NANOSECONDS_PER_SECOND);
}

#[test]
fn pacer_separates_wait_lag_catch_up_and_deadline_pressure() {
    let deadline = 5_000_000;
    let pacer = TickPacer::new(deadline);
    let timing = pacer.timing_at(deadline + 10_000_000, 2_000_000);

    assert_eq!(timing.waited, 2_000_000);
    assert_eq!(timing.lag, 10_000_000);
    assert_eq!(timing.ticks_behind, 2);
    let occupied = timing.occupied(deadline + 12_000_000);
    assert_eq!(occupied, 12_000_000);
    let pressure = std::time::Duration::from_nanos(occupied).as_secs_f64()
        * f64::from(u32::try_from(SIMULATION_TICK_RATE_HZ).expect("fits"));
    assert!((pressure - 2.88).abs() <= 1.0e-12);
    assert_eq!(pacer.timing_at(deadline - 1, 0).lag, 0);
    assert_eq!(pacer.time_until_deadline(deadline - 7), 7);
    assert_eq!(pacer.time_until_deadline(deadline + 7), 0);
}

#[test]
fn deadlines_never_drift() {
    let mut pacer = TickPacer::new(0);
    for tick in 1..=1_000_u64 {
        pacer.advance();
        assert_eq!(pacer.deadline(), tick * NANOSECONDS_PER_SECOND / SIMULATION_TICK_RATE_HZ);
    }
}

#[test]
fn scheduler_emits_every_owned_metric_family() {
    let names: Vec<&str> = describe_metrics().iter().map(|d| d.name).collect();
    for expected in [
        "blackflower_server_simulation_scheduler_wait_seconds",
        "blackflower_server_simulation_scheduler_tick_lag_seconds",
        "blackflower_server_simulation_scheduler_catch_up_depth_ticks",
        "blackflower_server_simulation_scheduler_catch_up_ticks_total",
        "blackflower_server_simulation_scheduler_deadline_pressure_ratio",
    ] {
        assert!(names.contains(&expected), "missing metric {expected}");
    }
    let initial = initialize();
    assert_eq!(initial.len(), 2);
    let telemetry = tick_started(2);
    assert_eq!(telemetry.catch_up_depth, 2);
    assert!(telemetry.caught_up);
    assert!(!tick_started(0).caught_up);
}

#[test]
fn conversions_saturate() {
    assert_eq!(metric_u32(7), 7);
    assert_eq!(metric_u32(u64::MAX), u32::MAX);
    assert_eq!(full_ticks(u64::MAX), (u128::from(u64::MAX) * 240 / 1_000_000_000) as u64);
    assert_eq!(full_ticks(4_166_666), 0);
    assert_eq!(full_ticks(4_166_667), 1);
}
