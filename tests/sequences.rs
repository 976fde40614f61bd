use espresso::{Cursor, OneOffset, PrefixedVec, TryError, TryReadFrom, WriteInto, ZeroOffset};

type Words = PrefixedVec<u16, u16, ZeroOffset>;
type Pooled = PrefixedVec<u16, u16, OneOffset>;
type Blob = PrefixedVec<u32, u8, ZeroOffset>;

fn decode<T: TryReadFrom>(bytes: Vec<u8>) -> Result<T, TryError> {
    T::try_read(&mut Cursor::new(bytes))
}

#[test]
fn empty_sequence_round_trips() {
    let v = Words::new(Vec::new()).unwrap();
    let mut buf = Vec::new();
    assert_eq!(v.write(&mut buf), 2);
    assert_eq!(buf, vec![0, 0]);
    let back: Words = decode(buf).unwrap();
    assert_eq!(back.len(), 0);
}

#[test]
fn non_empty_sequence_round_trips() {
    let v = Words::new(vec![1, 0x203, 0xffff]).unwrap();
    let mut buf = Vec::new();
    assert_eq!(v.write(&mut buf), 8);
    assert_eq!(buf, vec![0, 3, 0, 1, 2, 3, 0xff, 0xff]);
    let back: Words = decode(buf).unwrap();
    assert_eq!(back.items(), &vec![1, 0x203, 0xffff]);
    assert_eq!(back[1], 0x203);
    assert_eq!(back.iter().count(), 3);
}

#[test]
fn offset_one_count_is_one_past_length() {
    let v = Pooled::new(vec![9, 8]).unwrap();
    let mut buf = Vec::new();
    v.write(&mut buf);
    assert_eq!(buf, vec![0, 3, 0, 9, 0, 8]);
    let back: Pooled = decode(buf).unwrap();
    assert_eq!(back.into_inner(), vec![9, 8]);
}

#[test]
fn count_below_offset_is_malformed() {
    assert!(matches!(decode::<Pooled>(vec![0, 0]), Err(TryError::Malformed)));
    let empty: Pooled = decode(vec![0, 1]).unwrap();
    assert_eq!(empty.len(), 0);
}

#[test]
fn count_beyond_items_is_not_enough_bytes() {
    assert!(matches!(decode::<Words>(vec![0, 2, 0, 1]), Err(TryError::NotEnoughBytes)));
    assert!(matches!(decode::<Blob>(vec![0, 0, 0, 4, 1, 2, 3]), Err(TryError::NotEnoughBytes)));
    assert!(matches!(decode::<Words>(vec![0]), Err(TryError::NotEnoughBytes)));
}

#[test]
fn byte_blob_decodes() {
    let b: Blob = decode(vec![0, 0, 0, 3, 7, 8, 9, 10]).unwrap();
    assert_eq!(b.items(), &vec![7, 8, 9]);
}

#[test]
fn too_long_for_prefix_is_rejected() {
    let r = PrefixedVec::<u8, u8, ZeroOffset>::new(vec![0; 256]);
    assert!(matches!(r, Err(TryError::ValueTooLarge)));
    let r = PrefixedVec::<u8, u8, OneOffset>::new(vec![0; 255]);
    assert!(matches!(r, Err(TryError::ValueTooLarge)));
    let r = PrefixedVec::<u8, u8, ZeroOffset>::new(vec![0; 255]);
    assert_eq!(r.unwrap().len(), 255);
}
