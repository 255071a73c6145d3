use blackflower::network::{duration_micros, millis_until, SequenceAllocator32, SequenceAllocator64};

#[test]
fn resume_expiry_is_announced_in_saturated_milliseconds() {
    assert_eq!(millis_until(0, 2_500_000_000), 2_500);
    assert_eq!(millis_until(3_000_000_000, 2_000_000_000), 0);
    assert_eq!(millis_until(0, u128::MAX), u32::MAX);
    assert_eq!(millis_until(1, 1_000_000), 0);
}

#[test]
fn durations_convert_to_saturated_microseconds() {
    assert_eq!(duration_micros(1_999), 1);
    assert_eq!(duration_micros(u128::MAX), u64::MAX);
}

#[test]
fn identities_are_issued_once_and_never_wrap() {
    let mut epochs = SequenceAllocator32::starting_at(1);
    assert_eq!(epochs.allocate(), Some(1));
    assert_eq!(epochs.allocate(), Some(2));
    let mut last = SequenceAllocator32::starting_at(u32::MAX - 1);
    assert_eq!(last.allocate(), Some(u32::MAX - 1));
    assert_eq!(last.allocate(), None);
    assert_eq!(last.allocate(), None);
    let mut bootstraps = SequenceAllocator64::starting_at(u64::MAX);
    assert_eq!(bootstraps.allocate(), None);
}
