use threadline::clock::{timestamp_from_reading, timestamp_from_seconds, unix_now};

#[test]
fn seconds_that_fit_are_kept() {
    assert_eq!(timestamp_from_seconds(0), 0);
    assert_eq!(timestamp_from_seconds(1_700_000_000), 1_700_000_000);
    assert_eq!(timestamp_from_seconds(i64::MAX as u64), i64::MAX);
}

#[test]
fn seconds_beyond_the_signed_range_wrap() {
    assert_eq!(timestamp_from_seconds(i64::MAX as u64 + 1), i64::MIN);
    assert_eq!(timestamp_from_seconds(u64::MAX), -1);
}

#[test]
fn now_is_after_the_year_2020() {
    assert!(unix_now() > 1_577_836_800);
}

#[test]
fn now_does_not_run_backwards_by_much() {
    let earlier = unix_now();
    let later = unix_now();
    assert!(later >= earlier - 1);
}

#[test]
fn reading_before_the_epoch_is_zero() {
    assert_eq!(timestamp_from_reading(None), 0);
}

#[test]
fn reading_after_the_epoch_is_its_seconds() {
    assert_eq!(timestamp_from_reading(Some(0)), 0);
    assert_eq!(timestamp_from_reading(Some(1_700_000_000)), 1_700_000_000);
    assert_eq!(timestamp_from_reading(Some(u64::MAX)), -1);
}
