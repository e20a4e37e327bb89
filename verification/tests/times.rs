use asyncop::Timestamp;

fn after(secs: u64, nanos: u32) -> Timestamp {
    Timestamp::from_epoch_offset(true, secs, nanos).expect("in range")
}

fn before(secs: u64, nanos: u32) -> Timestamp {
    Timestamp::from_epoch_offset(false, secs, nanos).expect("in range")
}

#[test]
fn unix_seconds_are_rounded_down() {
    assert_eq!(after(0, 0).unix_secs(), 0);
    assert_eq!(after(1_700_000_000, 999_999_999).unix_secs(), 1_700_000_000);
}

#[test]
fn times_before_the_epoch_count_as_zero() {
    assert_eq!(before(0, 1).unix_secs(), 0);
    assert_eq!(before(5, 0).unix_secs(), 0);
    assert_eq!(before(0, 0).unix_secs(), 0);
}

#[test]
fn elapsed_seconds_are_rounded_down() {
    assert_eq!(after(10, 0).secs_since(after(7, 0)), 3);
    assert_eq!(after(10, 0).secs_since(after(7, 1)), 2);
    assert_eq!(after(10, 500_000_000).secs_since(after(7, 499_999_999)), 3);
    assert_eq!(after(1, 0).secs_since(before(1, 500_000_000)), 2);
    assert_eq!(after(7, 3).secs_since(after(7, 3)), 0);
}

#[test]
fn a_clock_that_went_back_counts_as_zero() {
    assert_eq!(after(7, 0).secs_since(after(10, 0)), 0);
    assert_eq!(after(7, 0).secs_since(after(7, 1)), 0);
}

#[test]
fn the_longest_span_fits() {
    let first = before(1 << 63, 0);
    let last = after(i64::MAX as u64, 999_999_999);
    assert_eq!(last.secs_since(first), u64::MAX);
}

#[test]
fn offsets_out_of_range_are_rejected() {
    assert!(Timestamp::from_epoch_offset(true, 0, 1_000_000_000).is_none());
    assert!(Timestamp::from_epoch_offset(true, 1 << 63, 0).is_none());
    assert!(Timestamp::from_epoch_offset(false, 1 << 63, 0).is_some());
    assert!(Timestamp::from_epoch_offset(false, 1 << 63, 1).is_none());
}
