use journal_alerts::time::{elapsed_since, exceeds_secs, secs_of, NANOS_PER_SEC};

#[test]
fn elapsed_saturates_at_zero() {
    assert_eq!(elapsed_since(10, 3), 7);
    assert_eq!(elapsed_since(3, 3), 0);
    assert_eq!(elapsed_since(3, 10), 0);
    assert_eq!(elapsed_since(u64::MAX, 0), u64::MAX);
}

#[test]
fn exceeds_is_strict() {
    assert!(!exceeds_secs(60 * NANOS_PER_SEC, 60));
    assert!(exceeds_secs(60 * NANOS_PER_SEC + 1, 60));
    assert!(!exceeds_secs(60 * NANOS_PER_SEC - 1, 60));
    assert!(!exceeds_secs(0, 0));
    assert!(exceeds_secs(1, 0));
    assert!(!exceeds_secs(u64::MAX, u64::MAX));
}

#[test]
fn whole_seconds_round_down() {
    assert_eq!(secs_of(0), 0);
    assert_eq!(secs_of(999_999_999), 0);
    assert_eq!(secs_of(1_000_000_000), 1);
    assert_eq!(secs_of(61_999_999_999), 61);
}
