use adk_realtime::duration::parse_duration_string;
use adk_realtime::time::Duration;

#[test]
fn test_parse_duration_string() {
    assert_eq!(parse_duration_string("15s"), Some(Duration::from_secs(15)));
    assert_eq!(parse_duration_string(" 15s "), Some(Duration::from_secs(15)));
    assert_eq!(parse_duration_string("500ms"), Some(Duration::from_millis(500)));
    assert_eq!(parse_duration_string("2m"), Some(Duration::from_secs(120)));
    assert_eq!(parse_duration_string("1.5s"), Some(Duration::from_millis(1500)));
    assert_eq!(parse_duration_string("0.5s"), Some(Duration::from_millis(500)));
    assert_eq!(parse_duration_string("100"), Some(Duration::from_secs(100)));
    assert_eq!(parse_duration_string("-5s"), None);
    assert_eq!(parse_duration_string("-100"), None);
    assert_eq!(parse_duration_string("NaNs"), None);
    assert_eq!(parse_duration_string("infs"), None);
    assert_eq!(parse_duration_string("-infs"), None);
    assert_eq!(parse_duration_string("1e999s"), None);
    assert_eq!(parse_duration_string(""), None);
    assert_eq!(parse_duration_string("invalid"), None);
}

#[test]
fn duration_number_syntax() {
    assert_eq!(parse_duration_string("+3s"), Some(Duration::from_secs(3)));
    assert_eq!(parse_duration_string(".25s"), Some(Duration::from_millis(250)));
    assert_eq!(parse_duration_string("4.s"), Some(Duration::from_secs(4)));
    assert_eq!(parse_duration_string("1e2s"), Some(Duration::from_secs(100)));
    assert_eq!(parse_duration_string("1.5E1ms"), Some(Duration::from_millis(15)));
    assert_eq!(parse_duration_string("2.5e-1m"), Some(Duration::from_secs(15)));
    assert_eq!(parse_duration_string("5 ms"), Some(Duration::from_millis(5)));
    assert_eq!(parse_duration_string("."), None);
    assert_eq!(parse_duration_string("1..2s"), None);
    assert_eq!(parse_duration_string("1e"), None);
    assert_eq!(parse_duration_string("e5"), None);
    assert_eq!(parse_duration_string("s"), None);
    assert_eq!(parse_duration_string("ms"), None);
    assert_eq!(parse_duration_string("1 5s"), None);
}

#[test]
fn duration_zero_and_negative_zero() {
    assert_eq!(parse_duration_string("0"), Some(Duration::from_nanos(0)));
    assert_eq!(parse_duration_string("-0s"), Some(Duration::from_nanos(0)));
    assert_eq!(parse_duration_string("0e999999999999999999999999"), Some(Duration::from_nanos(0)));
    assert_eq!(parse_duration_string("1e-999999999999999999999999s"), Some(Duration::from_nanos(0)));
}

#[test]
fn duration_year_is_the_limit() {
    assert_eq!(parse_duration_string("31536000s"), Some(Duration::from_secs(31_536_000)));
    assert_eq!(parse_duration_string("525600m"), Some(Duration::from_secs(31_536_000)));
    assert_eq!(parse_duration_string("31536000000ms"), Some(Duration::from_secs(31_536_000)));
    assert_eq!(parse_duration_string("31536000.000000001s"), None);
    assert_eq!(parse_duration_string("525601m"), None);
}

#[test]
fn duration_rounds_to_the_nearest_nanosecond() {
    assert_eq!(parse_duration_string("0.0000000014s"), Some(Duration::from_nanos(1)));
    assert_eq!(parse_duration_string("0.0000000015s"), Some(Duration::from_nanos(2)));
    assert_eq!(parse_duration_string("0.0000000004s"), Some(Duration::from_nanos(0)));
    assert_eq!(parse_duration_string("0.000001ms"), Some(Duration::from_nanos(1)));
    // 1e-10 minutes is 6 ns.
    assert_eq!(parse_duration_string("0.0000000001m"), Some(Duration::from_nanos(6)));
}
