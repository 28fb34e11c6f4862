use vdev::config::{parse_device_count, DEFAULT_DEVICES};
use vdev::error::VdevError;

#[test]
fn default_is_one_device() {
    assert_eq!(DEFAULT_DEVICES, 1);
}

#[test]
fn parses_decimal_counts() {
    assert_eq!(parse_device_count(b"0"), Ok(0));
    assert_eq!(parse_device_count(b"4"), Ok(4));
    assert_eq!(parse_device_count(b"007"), Ok(7));
    assert_eq!(parse_device_count(b"1234"), Ok(1234));
    let max = format!("{}", usize::MAX);
    assert_eq!(parse_device_count(max.as_bytes()), Ok(usize::MAX));
}

#[test]
fn rejects_malformed_counts() {
    assert_eq!(parse_device_count(b""), Err(VdevError::InvalidConfig));
    assert_eq!(parse_device_count(b"-1"), Err(VdevError::InvalidConfig));
    assert_eq!(parse_device_count(b"4a"), Err(VdevError::InvalidConfig));
    assert_eq!(parse_device_count(b" 4"), Err(VdevError::InvalidConfig));
}

#[test]
fn rejects_out_of_range_counts() {
    let over = format!("{}0", usize::MAX);
    assert_eq!(parse_device_count(over.as_bytes()), Err(VdevError::InvalidConfig));
    assert_eq!(
        parse_device_count(b"99999999999999999999999999"),
        Err(VdevError::InvalidConfig)
    );
}
