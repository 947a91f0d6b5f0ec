use std::time::{Duration, UNIX_EPOCH};

use pod_os_client::{get_timestamp, timestamp_from_duration};

#[test]
fn format_is_correct() {
    let ts = get_timestamp();
    assert!(ts.starts_with('+'), "must start with '+', got: {ts}");
    let dot = ts.find('.').expect("must contain '.'");
    let frac = &ts[dot + 1..];
    assert_eq!(frac.len(), 6, "must have 6 fractional digits, got: {ts}");
}

#[test]
fn timestamp_of_a_given_time() {
    let d = (UNIX_EPOCH + Duration::from_micros(1_500_042)).duration_since(UNIX_EPOCH).unwrap();
    assert_eq!(timestamp_from_duration(d.as_secs(), d.subsec_micros()), "+1.500042");
}

#[test]
fn timestamp_pads_microseconds() {
    assert_eq!(timestamp_from_duration(1787151707, 7), "+1787151707.000007");
    assert_eq!(timestamp_from_duration(0, 0), "+0.000000");
}
