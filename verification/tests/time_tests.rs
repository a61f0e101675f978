use task_workflow::domain::time::{MAX_DURATION_NANOS, MAX_TIMESTAMP_NANOS, MIN_DURATION_NANOS};
use task_workflow::domain::{Duration, Timestamp};

#[test]
fn timestamp_parts_round_trip() {
    let t = Timestamp::new(1_700_000_000, 123_456_789);
    assert_eq!(t.seconds(), 1_700_000_000);
    assert_eq!(t.subsec_nanos(), 123_456_789);
    assert_eq!(t.total_nanos(), 1_700_000_000_123_456_789);
}

#[test]
fn timestamp_before_the_epoch_rounds_seconds_down() {
    let t = Timestamp::new(-2, 250_000_000);
    assert_eq!(t.total_nanos(), -1_750_000_000);
    assert_eq!(t.seconds(), -2);
    assert_eq!(t.subsec_nanos(), 250_000_000);
}

#[test]
fn timestamp_carries_surplus_nanoseconds() {
    let t = Timestamp::new(10, 1_500_000_000);
    assert_eq!(t.seconds(), 11);
    assert_eq!(t.subsec_nanos(), 500_000_000);
}

#[test]
fn timestamp_is_clamped_to_its_range() {
    let latest = Timestamp::new(i64::MAX, 999_999_999);
    assert_eq!(latest.total_nanos(), MAX_TIMESTAMP_NANOS);
    let earliest = Timestamp::new(i64::MIN, 0);
    assert_eq!(earliest.total_nanos(), -MAX_TIMESTAMP_NANOS);
    let edge = Timestamp::new(4_611_686_018_427_387_903, 999_999_999);
    assert_eq!(edge.total_nanos(), MAX_TIMESTAMP_NANOS);
    assert_eq!(edge, latest);
}

#[test]
fn timestamp_order_and_difference() {
    let early = Timestamp::new(100, 0);
    let late = Timestamp::new(160, 500);
    assert!(early.is_at_or_before(&late));
    assert!(early.is_at_or_before(&early));
    assert!(!late.is_at_or_before(&early));
    assert!(early < late);
    assert_eq!(late.duration_since(&early).total_nanos(), 60_000_000_500);
    assert_eq!(early.duration_since(&late).total_nanos(), -60_000_000_500);
}

#[test]
fn widest_difference_of_timestamps_is_a_duration() {
    let latest = Timestamp::new(i64::MAX, 0);
    let earliest = Timestamp::new(i64::MIN, 0);
    let span = latest.duration_since(&earliest);
    assert_eq!(span.total_nanos(), 2 * MAX_TIMESTAMP_NANOS);
    assert!(span.total_nanos() <= MAX_DURATION_NANOS);
}

#[test]
fn clock_gives_a_timestamp_of_today() {
    let now = Timestamp::now();
    // After 2020-01-01 and before the year 3000.
    assert!(now.seconds() > 1_577_836_800);
    assert!(now.seconds() < 32_503_680_000);
    assert!(now.subsec_nanos() < 1_000_000_000);
}

#[test]
fn duration_constructors() {
    assert_eq!(Duration::zero().total_nanos(), 0);
    assert!(Duration::zero().is_zero());
    assert_eq!(Duration::seconds(3).total_nanos(), 3_000_000_000);
    assert_eq!(Duration::milliseconds(-1_500).total_nanos(), -1_500_000_000);
    assert_eq!(Duration::nanoseconds(42).total_nanos(), 42);
    assert!(!Duration::nanoseconds(1).is_zero());
    assert_eq!(Duration::seconds(i64::MIN).total_nanos(), MIN_DURATION_NANOS);
    assert_eq!(
        Duration::seconds(i64::MAX).total_nanos(),
        9_223_372_036_854_775_807_000_000_000
    );
}

#[test]
fn duration_from_nanos_checks_the_range() {
    assert_eq!(Duration::from_nanos(MAX_DURATION_NANOS).unwrap().total_nanos(), MAX_DURATION_NANOS);
    assert_eq!(Duration::from_nanos(MIN_DURATION_NANOS).unwrap().total_nanos(), MIN_DURATION_NANOS);
    assert!(Duration::from_nanos(MAX_DURATION_NANOS + 1).is_none());
    assert!(Duration::from_nanos(MIN_DURATION_NANOS - 1).is_none());
}

#[test]
fn duration_seconds_round_toward_zero() {
    assert_eq!(Duration::milliseconds(1_999).num_seconds(), 1);
    assert_eq!(Duration::milliseconds(1_999).subsec_nanos(), 999_000_000);
    assert_eq!(Duration::milliseconds(-1_999).num_seconds(), -1);
    assert_eq!(Duration::milliseconds(-1_999).subsec_nanos(), -999_000_000);
    assert_eq!(Duration::milliseconds(-999).num_seconds(), 0);
    assert_eq!(Duration::seconds(i64::MIN).num_seconds(), i64::MIN);
    assert_eq!(Duration::from_nanos(MAX_DURATION_NANOS).unwrap().num_seconds(), i64::MAX);
}

#[test]
fn duration_checked_add() {
    let a = Duration::seconds(5);
    let b = Duration::milliseconds(-250);
    assert_eq!(a.checked_add(&b), Some(Duration::milliseconds(4_750)));
    let max = Duration::from_nanos(MAX_DURATION_NANOS).unwrap();
    assert_eq!(max.checked_add(&Duration::nanoseconds(1)), None);
    assert_eq!(max.checked_add(&Duration::nanoseconds(-1)).unwrap().total_nanos(), MAX_DURATION_NANOS - 1);
    let min = Duration::seconds(i64::MIN);
    assert_eq!(min.checked_add(&Duration::nanoseconds(-1)), None);
}
