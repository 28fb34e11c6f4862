use vdev::device::{write_only, Device};
use vdev::error::VdevError;

fn read_at(d: &Device, capacity: usize, offset: u64) -> Result<Vec<u8>, VdevError> {
    let mut dest = vec![0xEEu8; capacity];
    let n = d.read(&mut dest, offset)?;
    dest.truncate(n);
    Ok(dest)
}

#[test]
fn new_device_is_empty() {
    let d = Device::new(4);
    assert_eq!(d.index(), 4);
    assert_eq!(d.len(), 0);
    assert!(d.is_empty());
    assert_eq!(d.contents(), Vec::<u8>::new());
}

#[test]
fn write_only_open_truncates() {
    let mut d = Device::new(0);
    assert_eq!(d.write(b"hello", 0), Ok(5));
    d.open(1);
    assert_eq!(d.len(), 0);
    assert_eq!(read_at(&d, 10, 0), Ok(vec![]));
}

#[test]
fn write_only_open_ignores_other_flag_bits() {
    let mut d = Device::new(0);
    d.write(b"abc", 0).unwrap();
    d.open(1 | 0o1000 | 0o100);
    assert!(d.is_empty());
}

#[test]
fn read_only_and_read_write_opens_keep_data() {
    let mut d = Device::new(0);
    d.write(b"abc", 0).unwrap();
    d.open(0);
    assert_eq!(d.contents(), b"abc".to_vec());
    d.open(2);
    assert_eq!(d.contents(), b"abc".to_vec());
    d.open(3);
    assert_eq!(d.contents(), b"abc".to_vec());
    d.open(0o1002);
    assert_eq!(d.contents(), b"abc".to_vec());
}

#[test]
fn write_only_flag_test() {
    assert!(write_only(1));
    assert!(write_only(0o101));
    assert!(!write_only(0));
    assert!(!write_only(2));
    assert!(!write_only(3));
}

#[test]
fn write_then_read_round_trip() {
    let mut d = Device::new(0);
    let data = vec![9u8, 8, 7, 6, 5];
    assert_eq!(d.write(&data, 10), Ok(5));
    assert_eq!(read_at(&d, 5, 10), Ok(data));
}

#[test]
fn write_past_end_zero_fills_gap() {
    let mut d = Device::new(0);
    assert_eq!(d.write(&[0xAA, 0xBB], 5), Ok(2));
    assert_eq!(d.len(), 7);
    assert_eq!(read_at(&d, 7, 0), Ok(vec![0, 0, 0, 0, 0, 0xAA, 0xBB]));
}

#[test]
fn write_inside_keeps_length_and_other_bytes() {
    let mut d = Device::new(0);
    d.write(b"abcdef", 0).unwrap();
    assert_eq!(d.write(b"XY", 2), Ok(2));
    assert_eq!(d.contents(), b"abXYef".to_vec());
    assert_eq!(d.write(b"123", 4), Ok(3));
    assert_eq!(d.contents(), b"abXY123".to_vec());
}

#[test]
fn empty_write_past_end_grows_to_offset() {
    let mut d = Device::new(0);
    assert_eq!(d.write(&[], 3), Ok(0));
    assert_eq!(d.contents(), vec![0, 0, 0]);
}

#[test]
fn read_at_or_past_end_is_empty() {
    let mut d = Device::new(0);
    d.write(b"abc", 0).unwrap();
    assert_eq!(read_at(&d, 10, 3), Ok(vec![]));
    assert_eq!(read_at(&d, 10, 4), Ok(vec![]));
    assert_eq!(read_at(&d, 10, 1000), Ok(vec![]));
    assert_eq!(read_at(&d, 10, u64::MAX), Ok(vec![]));
    let e = Device::new(1);
    assert_eq!(read_at(&e, 10, 0), Ok(vec![]));
}

#[test]
fn read_never_exceeds_capacity() {
    let mut d = Device::new(0);
    d.write(b"abcdefgh", 0).unwrap();
    assert_eq!(read_at(&d, 3, 0), Ok(b"abc".to_vec()));
    assert_eq!(read_at(&d, 3, 4), Ok(b"efg".to_vec()));
    assert_eq!(read_at(&d, 0, 2), Ok(vec![]));
    assert_eq!(read_at(&d, 100, 5), Ok(b"fgh".to_vec()));
}

#[test]
fn read_leaves_rest_of_destination() {
    let mut d = Device::new(0);
    d.write(b"ab", 0).unwrap();
    let mut dest = vec![1u8, 2, 3, 4];
    assert_eq!(d.read(&mut dest, 0), Ok(2));
    assert_eq!(dest, vec![b'a', b'b', 3, 4]);
}

#[test]
fn devices_are_independent() {
    let mut d0 = Device::new(0);
    let mut d1 = Device::new(1);
    d1.write(b"keep", 0).unwrap();
    d0.write(b"changed", 2).unwrap();
    d0.open(1);
    d0.write(b"z", 9).unwrap();
    assert_eq!(d1.contents(), b"keep".to_vec());
    assert_eq!(d1.len(), 4);
}

#[test]
fn disjoint_writes_keep_their_bytes_in_either_order() {
    let mut a = Device::new(0);
    a.write(b"left", 0).unwrap();
    a.write(b"right", 6).unwrap();
    let mut b = Device::new(0);
    b.write(b"right", 6).unwrap();
    b.write(b"left", 0).unwrap();
    assert_eq!(a.contents(), b.contents());
    assert_eq!(read_at(&a, 4, 0), Ok(b"left".to_vec()));
    assert_eq!(read_at(&a, 5, 6), Ok(b"right".to_vec()));
}

#[test]
fn write_end_overflow_is_invalid_offset() {
    let mut d = Device::new(0);
    d.write(b"x", 0).unwrap();
    assert_eq!(d.write(b"ab", u64::MAX), Err(VdevError::InvalidOffset));
    assert_eq!(d.write(b"ab", usize::MAX as u64 - 1), Err(VdevError::InvalidOffset));
    assert_eq!(d.contents(), b"x".to_vec());
}

#[test]
fn unallocatable_growth_is_out_of_memory() {
    let mut d = Device::new(0);
    d.write(b"x", 0).unwrap();
    assert_eq!(d.write(b"a", usize::MAX as u64 - 1), Err(VdevError::OutOfMemory));
    assert_eq!(d.contents(), b"x".to_vec());
}
