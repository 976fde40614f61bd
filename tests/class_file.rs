use espresso::{
    parse, AccessFlags, ClassIndex, Constant, Cursor, MajorVersion, StringIndex, TryError,
    TryReadFrom,
};

fn minimal(major: u16) -> Vec<u8> {
    let mut v = vec![0xca, 0xfe, 0xba, 0xbe, 0, 0];
    v.extend_from_slice(&major.to_be_bytes());
    v.extend_from_slice(&[0, 2, 1, 0, 1, b'A']);
    v.extend_from_slice(&[0, 0x21, 0, 0, 0, 0]);
    v.extend_from_slice(&[0, 0, 0, 0, 0, 0, 0, 0]);
    v
}

const POOL_END: usize = 14;

#[test]
fn minimal_container_decodes() {
    let c = parse(minimal(52)).unwrap();
    assert_eq!(c.magic_number, 0xcafe_babe);
    assert_eq!(c.minor_version, 0);
    assert_eq!(c.major_version, MajorVersion::JavaSE8);
    assert_eq!(c.constant_pool.len(), 1);
    assert_eq!(c.constant_pool.get(0), Some(&Constant::String("A".to_string())));
    assert_eq!(c.constant_pool.string(StringIndex(0)).unwrap(), "A");
    assert_eq!(c.access_flags.bits(), 0x01);
    assert_eq!(c.this_class, ClassIndex(0));
    assert_eq!(c.super_class, ClassIndex(0));
    assert_eq!(c.interfaces.len(), 0);
    assert_eq!(c.fields.len(), 0);
    assert_eq!(c.methods.len(), 0);
    assert_eq!(c.attributes.len(), 0);
}

#[test]
fn truncated_pool_is_not_enough_bytes() {
    let mut bytes = minimal(52);
    bytes.truncate(POOL_END - 1);
    assert!(matches!(parse(bytes), Err(TryError::NotEnoughBytes)));
}

#[test]
fn every_truncation_fails() {
    let full = minimal(52);
    for n in 0..full.len() {
        assert!(matches!(parse(full[..n].to_vec()), Err(TryError::NotEnoughBytes)));
    }
}

#[test]
fn unknown_major_version_falls_back() {
    let c = parse(minimal(9999)).unwrap();
    assert_eq!(c.major_version, MajorVersion::Other(9999));
}

#[test]
fn major_version_names() {
    assert_eq!(MajorVersion::from_u16(45), MajorVersion::JDK1_1);
    assert_eq!(MajorVersion::from_u16(49), MajorVersion::JavaSE5_0);
    assert_eq!(MajorVersion::from_u16(58), MajorVersion::JavaSE14);
    assert_eq!(MajorVersion::from_u16(44), MajorVersion::Other(44));
    assert_eq!(MajorVersion::from_u16(59), MajorVersion::Other(59));
}

#[test]
fn unknown_flag_bits_are_dropped() {
    let f = AccessFlags::from_bits_truncate(0xffff);
    assert_eq!(f.bits(), 0x50df);
    assert!(f.contains(espresso::class::ACC_ENUM));
    let g = AccessFlags::from_bits_truncate(0x0020 | 0x0001);
    assert_eq!(g.bits(), 0x0001);
    assert!(!g.contains(espresso::class::ACC_FINAL));
}

#[test]
fn members_and_attributes_decode() {
    let mut v = vec![0xca, 0xfe, 0xba, 0xbe, 0, 3, 0, 45, 0, 1];
    v.extend_from_slice(&[0, 1, 0, 2, 0, 3]);
    v.extend_from_slice(&[0, 1, 0, 5]);
    v.extend_from_slice(&[0, 1, 0, 0x8, 0, 6, 0, 7, 0, 1, 0, 8, 0, 0, 0, 2, 0xaa, 0xbb]);
    v.extend_from_slice(&[0, 1, 0, 0x1, 0, 9, 0, 10, 0, 0]);
    v.extend_from_slice(&[0, 1, 0, 11, 0, 0, 0, 0]);
    let c = parse(v).unwrap();
    assert_eq!(c.major_version, MajorVersion::JDK1_1);
    assert_eq!(c.constant_pool.len(), 0);
    assert_eq!(c.this_class, ClassIndex(2));
    assert_eq!(c.super_class, ClassIndex(3));
    assert_eq!(c.interfaces.items(), &vec![ClassIndex(5)]);
    let f = &c.fields.items()[0];
    assert_eq!(f.access_flags, 8);
    assert_eq!(f.name_index, StringIndex(6));
    assert_eq!(f.descriptor_index, StringIndex(7));
    let a = &f.attributes.items()[0];
    assert_eq!(a.attribute_name_index, StringIndex(8));
    assert_eq!(a.info.items(), &vec![0xaa, 0xbb]);
    let m = &c.methods.items()[0];
    assert_eq!(m.name_index, StringIndex(9));
    assert_eq!(m.attributes.len(), 0);
    assert_eq!(c.attributes.items()[0].attribute_name_index, StringIndex(11));
    assert_eq!(c.attributes.items()[0].info.len(), 0);
}

#[test]
fn class_file_through_the_trait() {
    let mut cur = Cursor::new(minimal(52));
    let c = espresso::ClassFile::try_read(&mut cur).unwrap();
    assert_eq!(c.major_version, MajorVersion::JavaSE8);
    assert_eq!(cur.remaining(), 0);
}
