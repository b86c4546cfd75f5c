use cmha::args::{device_manager_id_fn, device_name_fn, parse_duration, parse_slug, parse_u64, prefixed_device_name, ParseIntErrorKind};
use std::time::Duration;

#[test]
fn test_parse_duration_valid() {
    assert_eq!(parse_duration("1000").unwrap(), Duration::from_millis(1000));
    assert_eq!(parse_duration("5000").unwrap(), Duration::from_millis(5000));
    assert_eq!(parse_duration("0").unwrap(), Duration::from_millis(0));
}

#[test]
fn test_parse_duration_invalid() {
    assert!(parse_duration("invalid").is_err());
    assert!(parse_duration("-100").is_err());
    assert!(parse_duration("12.5").is_err());
}

#[test]
fn test_parse_slug_basic() {
    assert_eq!(parse_slug("mqtt_cmha").unwrap(), "mqtt_cmha");
    assert_eq!(parse_slug("My Device").unwrap(), "my_device");
    assert_eq!(parse_slug("Test-Device-123").unwrap(), "test_device_123");
}

#[test]
fn test_parse_slug_special_chars() {
    assert_eq!(parse_slug("nõde@123").unwrap(), "node_123");
    assert_eq!(parse_slug("tést#device").unwrap(), "test_device");
}

#[test]
fn test_device_manager_id_slugification() {
    let test_cases = vec![
        ("simple", "simple"),
        ("with spaces", "with_spaces"),
        ("with-dashes", "with_dashes"),
        ("MixedCase", "mixedcase"),
        ("special@chars#123", "special_chars_123"),
    ];
    for (input, expected) in test_cases {
        let device_manager_id = parse_slug(input).unwrap();
        assert_eq!(device_manager_id, expected, "Failed to slugify '{input}' to '{expected}'");
    }
}

#[test]
fn parse_duration_error_tells_the_cause() {
    assert_eq!(parse_duration("").unwrap_err(), "Invalid duration: cannot parse integer from empty string");
    assert_eq!(parse_duration("12.5").unwrap_err(), "Invalid duration: invalid digit found in string");
    assert_eq!(
        parse_duration("18446744073709551616").unwrap_err(),
        "Invalid duration: number too large to fit in target type"
    );
}

#[test]
fn parse_duration_accepts_a_plus_sign_and_the_largest_value() {
    assert_eq!(parse_duration("+250").unwrap(), Duration::from_millis(250));
    assert_eq!(parse_duration("18446744073709551615").unwrap(), Duration::from_millis(u64::MAX));
}

#[test]
fn parse_u64_error_kinds() {
    assert_eq!(parse_u64(""), Err(ParseIntErrorKind::Empty));
    assert_eq!(parse_u64("+"), Err(ParseIntErrorKind::InvalidDigit));
    assert_eq!(parse_u64("1a"), Err(ParseIntErrorKind::InvalidDigit));
    assert_eq!(parse_u64("99999999999999999999"), Err(ParseIntErrorKind::PosOverflow));
    assert_eq!(parse_u64("007"), Ok(7));
}

#[test]
fn default_names_use_the_host_name() {
    assert_eq!(device_manager_id_fn("MY_HOSTNAME"), "Device MY_HOSTNAME");
    assert_eq!(device_name_fn("MY_HOSTNAME"), "Containers at MY_HOSTNAME");
}

#[test]
fn prefixed_device_name_puts_the_prefix_first() {
    assert_eq!(prefixed_device_name(&Some("test".to_string()), &"MQTT Test".to_string()), "testMQTT Test");
    assert_eq!(prefixed_device_name(&None, &"MQTT Test".to_string()), "MQTT Test");
}
