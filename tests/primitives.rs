use espresso::{Cursor, TryError, TryReadFrom, TryReadInto, WriteFrom, WriteInto};

fn read<T: TryReadFrom>(bytes: &[u8]) -> (Result<T, TryError>, usize) {
    let mut c = Cursor::new(bytes.to_vec());
    let r = T::try_read(&mut c);
    (r, c.remaining())
}

fn encode<T: WriteInto>(v: &T) -> Vec<u8> {
    let mut buf = Vec::new();
    let n = v.write(&mut buf);
    assert_eq!(n, buf.len());
    buf
}

#[test]
fn short_inputs_fail_with_not_enough_bytes() {
    assert!(matches!(read::<u8>(&[]).0, Err(TryError::NotEnoughBytes)));
    assert!(matches!(read::<i8>(&[]).0, Err(TryError::NotEnoughBytes)));
    assert!(matches!(read::<bool>(&[]).0, Err(TryError::NotEnoughBytes)));
    assert!(matches!(read::<u16>(&[1]).0, Err(TryError::NotEnoughBytes)));
    assert!(matches!(read::<i16>(&[1]).0, Err(TryError::NotEnoughBytes)));
    assert!(matches!(read::<u32>(&[1, 2, 3]).0, Err(TryError::NotEnoughBytes)));
    assert!(matches!(read::<i32>(&[1, 2, 3]).0, Err(TryError::NotEnoughBytes)));
    assert!(matches!(read::<u64>(&[1, 2, 3, 4, 5, 6, 7]).0, Err(TryError::NotEnoughBytes)));
    assert!(matches!(read::<i64>(&[]).0, Err(TryError::NotEnoughBytes)));
}

#[test]
fn integers_are_big_endian() {
    assert_eq!(read::<u16>(&[0x12, 0x34]).0.unwrap(), 0x1234);
    assert_eq!(read::<i16>(&[0xff, 0xfe]).0.unwrap(), -2);
    assert_eq!(read::<u32>(&[0xca, 0xfe, 0xba, 0xbe]).0.unwrap(), 0xcafe_babe);
    assert_eq!(read::<i32>(&[0x80, 0, 0, 0]).0.unwrap(), i32::MIN);
    assert_eq!(read::<u64>(&[1, 2, 3, 4, 5, 6, 7, 8]).0.unwrap(), 0x0102_0304_0506_0708);
    assert_eq!(read::<i64>(&[0xff; 8]).0.unwrap(), -1);
    assert_eq!(read::<i8>(&[0x80]).0.unwrap(), -128);
}

#[test]
fn reads_consume_exactly_their_width() {
    assert_eq!(read::<u8>(&[1, 2, 3]).1, 2);
    assert_eq!(read::<u16>(&[1, 2, 3]).1, 1);
    assert_eq!(read::<u32>(&[1, 2, 3, 4, 5]).1, 1);
    assert_eq!(read::<u64>(&[0; 9]).1, 1);
}

#[test]
fn primitives_round_trip() {
    assert_eq!(encode(&0x1234u16), vec![0x12, 0x34]);
    assert_eq!(encode(&-2i32), vec![0xff, 0xff, 0xff, 0xfe]);
    assert_eq!(read::<u8>(&encode(&0xabu8)).0.unwrap(), 0xab);
    assert_eq!(read::<i8>(&encode(&-7i8)).0.unwrap(), -7);
    assert_eq!(read::<u16>(&encode(&65535u16)).0.unwrap(), 65535);
    assert_eq!(read::<i16>(&encode(&-300i16)).0.unwrap(), -300);
    assert_eq!(read::<u32>(&encode(&0xdead_beefu32)).0.unwrap(), 0xdead_beef);
    assert_eq!(read::<i32>(&encode(&i32::MIN)).0.unwrap(), i32::MIN);
    assert_eq!(read::<u64>(&encode(&u64::MAX)).0.unwrap(), u64::MAX);
    assert_eq!(read::<i64>(&encode(&-123_456_789_012i64)).0.unwrap(), -123_456_789_012);
    assert_eq!(read::<bool>(&encode(&true)).0.unwrap(), true);
    assert_eq!(read::<bool>(&encode(&false)).0.unwrap(), false);
}

#[test]
fn float_bit_patterns_round_trip() {
    let f = 1.5f32.to_bits();
    assert_eq!(f32::from_bits(read::<u32>(&encode(&f)).0.unwrap()), 1.5);
    let d = (-0.25f64).to_bits();
    assert_eq!(f64::from_bits(read::<u64>(&encode(&d)).0.unwrap()), -0.25);
}

#[test]
fn booleans_accept_only_zero_and_one() {
    assert_eq!(read::<bool>(&[0]).0.unwrap(), false);
    assert_eq!(read::<bool>(&[1]).0.unwrap(), true);
    assert!(matches!(read::<bool>(&[2]).0, Err(TryError::Malformed)));
    assert!(matches!(read::<bool>(&[0xff]).0, Err(TryError::Malformed)));
}

#[test]
fn cursor_and_buffer_sides() {
    let mut c = Cursor::new(vec![0, 5, 1]);
    let a: u16 = TryReadInto::<u16>::try_read(&mut c).unwrap();
    let b: bool = TryReadInto::<bool>::try_read(&mut c).unwrap();
    assert_eq!(a, 5);
    assert!(b);
    assert_eq!(c.remaining(), 0);
    let mut buf: Vec<u8> = Vec::new();
    assert_eq!(WriteFrom::<u32>::write(&mut buf, &7u32), 4);
    assert_eq!(buf, vec![0, 0, 0, 7]);
}

#[test]
fn read_bytes_takes_a_prefix() {
    let mut c = Cursor::new(vec![1, 2, 3]);
    assert!(matches!(c.read_bytes(4), Err(TryError::NotEnoughBytes)));
    assert_eq!(c.remaining(), 3);
    assert_eq!(c.read_bytes(2).unwrap(), vec![1, 2]);
    assert_eq!(c.remaining(), 1);
}
