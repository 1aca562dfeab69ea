use govee_undoc::clock::{ms_timestamp, timestamp_text};
use std::time::{SystemTime, UNIX_EPOCH};

fn now_millis() -> u128 {
    SystemTime::now().duration_since(UNIX_EPOCH).unwrap().as_millis()
}

#[test]
fn timestamp_text_is_decimal() {
    assert_eq!(timestamp_text(0), "0");
    assert_eq!(timestamp_text(7), "7");
    assert_eq!(timestamp_text(10), "10");
    assert_eq!(timestamp_text(1_700_000_000_123), "1700000000123");
    assert_eq!(timestamp_text(9_876_543_210), "9876543210");
    assert_eq!(timestamp_text(u128::MAX), "340282366920938463463374607431768211455");
}

#[test]
fn ms_timestamp_is_the_clock_in_digits() {
    let before = now_millis();
    let text = ms_timestamp().unwrap();
    let after = now_millis();
    assert!(text.chars().all(|c| c.is_ascii_digit()));
    let value: u128 = text.parse().unwrap();
    assert!(before <= value && value <= after);
    // Later than the first of January 2020.
    assert!(value > 1_577_836_800_000);
}
