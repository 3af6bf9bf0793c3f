use journal_alerts::text::{decimal_string, missed_text, push_decimal, recovered_text};

#[test]
fn decimal_of_small_and_large_numbers() {
    assert_eq!(decimal_string(0), "0");
    assert_eq!(decimal_string(7), "7");
    assert_eq!(decimal_string(10), "10");
    assert_eq!(decimal_string(61), "61");
    assert_eq!(decimal_string(1_234_567_890), "1234567890");
    assert_eq!(decimal_string(u64::MAX), "18446744073709551615");
}

#[test]
fn push_decimal_appends() {
    let mut out = String::from("n=");
    push_decimal(&mut out, 405);
    assert_eq!(out, "n=405");
}

#[test]
fn missed_text_carries_prefix_pattern_and_elapsed_time() {
    assert_eq!(
        missed_text("HB", "ping", 61_000_000_000),
        "HB Heartbeat missed for pattern 'ping'. Last seen 61s ago."
    );
    assert_eq!(
        missed_text("", "p", 61_500_000_000),
        " Heartbeat missed for pattern 'p'. Last seen 61.5s ago."
    );
    assert_eq!(
        missed_text("x", "p", 1_500_000),
        "x Heartbeat missed for pattern 'p'. Last seen 1.5ms ago."
    );
}

#[test]
fn recovered_text_reports_whole_seconds() {
    assert_eq!(
        recovered_text("ping", 70_000_000_000),
        "\u{1FA79} Heartbeat recovered in 70s for pattern 'ping'."
    );
    assert_eq!(
        recovered_text("ping", 1_999_999_999),
        "\u{1FA79} Heartbeat recovered in 1s for pattern 'ping'."
    );
    assert_eq!(
        recovered_text("", 0),
        "\u{1FA79} Heartbeat recovered in 0s for pattern ''."
    );
}
