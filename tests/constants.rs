use espresso::{
    ClassConstant, ClassIndex, Constant, ConstantPool, Cursor, FieldConstant, FieldIndex,
    InterfaceMethodConstant, InterfaceMethodIndex, InvokeDynamicConstant, LookupError,
    MethodConstant, MethodHandleConstant, MethodIndex, MethodOrInterfaceMethodIndex,
    MethodTypeConstant, NameAndTypeConstant, NameAndTypeIndex, StringIndex, StringRefConstant,
    TryError, TryReadFrom,
};

fn constant(bytes: &[u8]) -> (Result<Constant, TryError>, usize) {
    let mut c = Cursor::new(bytes.to_vec());
    let r = Constant::try_read(&mut c);
    (r, c.remaining())
}

fn ok(bytes: &[u8]) -> Constant {
    let (r, rest) = constant(bytes);
    assert_eq!(rest, 0);
    r.unwrap()
}

#[test]
fn text_constant() {
    assert_eq!(ok(&[1, 0, 3, b'a', b'b', b'c']), Constant::String("abc".to_string()));
    assert_eq!(ok(&[1, 0, 0]), Constant::String(String::new()));
    assert_eq!(ok(&[1, 0, 2, 0xc3, 0xa9]), Constant::String("\u{e9}".to_string()));
    assert_eq!(constant(&[1, 0, 1, b'x', 9]).1, 1);
}

#[test]
fn text_longer_than_input_is_not_enough_bytes() {
    assert!(matches!(constant(&[1, 0, 5, b'a', b'b']).0, Err(TryError::NotEnoughBytes)));
    assert!(matches!(constant(&[1, 0]).0, Err(TryError::NotEnoughBytes)));
}

#[test]
fn invalid_text_is_malformed() {
    assert!(matches!(constant(&[1, 0, 2, 0xff, 0xfe]).0, Err(TryError::Malformed)));
}

#[test]
fn numeric_constants() {
    assert_eq!(ok(&[3, 0xff, 0xff, 0xff, 0xfe]), Constant::I32(-2));
    assert_eq!(ok(&[4, 0x3f, 0xc0, 0, 0]), Constant::F32(1.5f32.to_bits()));
    assert_eq!(ok(&[5, 0, 0, 0, 1, 0, 0, 0, 2]), Constant::I64(0x1_0000_0002));
    assert_eq!(ok(&[6, 0xbf, 0xd0, 0, 0, 0, 0, 0, 0]), Constant::F64((-0.25f64).to_bits()));
    assert!(matches!(constant(&[5, 0, 0, 0]).0, Err(TryError::NotEnoughBytes)));
}

#[test]
fn reference_constants() {
    assert_eq!(ok(&[7, 0, 4]), Constant::Class(ClassConstant { name: StringIndex(4) }));
    assert_eq!(ok(&[8, 1, 0]), Constant::StringRef(StringRefConstant { string: StringIndex(256) }));
    let class = ClassIndex(1);
    let nat = NameAndTypeIndex(2);
    assert_eq!(
        ok(&[9, 0, 1, 0, 2]),
        Constant::Field(FieldConstant { class, name_and_type: nat })
    );
    assert_eq!(
        ok(&[10, 0, 1, 0, 2]),
        Constant::Method(MethodConstant { class, name_and_type: nat })
    );
    assert_eq!(
        ok(&[11, 0, 1, 0, 2]),
        Constant::InterfaceMethod(InterfaceMethodConstant { class, name_and_type: nat })
    );
    assert_eq!(
        ok(&[12, 0, 5, 0, 6]),
        Constant::NameAndType(NameAndTypeConstant {
            name: StringIndex(5),
            descriptor: StringIndex(6)
        })
    );
    assert_eq!(
        ok(&[16, 0, 7]),
        Constant::MethodType(MethodTypeConstant { descriptor: StringIndex(7) })
    );
    assert_eq!(
        ok(&[18, 0, 3, 0, 2]),
        Constant::InvokeDynamic(InvokeDynamicConstant { bootstrap_method_attr: 3, name_and_type: nat })
    );
    assert!(matches!(constant(&[9, 0, 1, 0]).0, Err(TryError::NotEnoughBytes)));
}

#[test]
fn method_handle_kinds() {
    let expected = [
        MethodHandleConstant::GetField(FieldIndex(9)),
        MethodHandleConstant::GetStatic(FieldIndex(9)),
        MethodHandleConstant::PutField(FieldIndex(9)),
        MethodHandleConstant::PutStatic(FieldIndex(9)),
        MethodHandleConstant::InvokeVirtual(MethodIndex(9)),
        MethodHandleConstant::NewInvokeSpecial(MethodIndex(9)),
        MethodHandleConstant::InvokeSpecial(MethodOrInterfaceMethodIndex(9)),
        MethodHandleConstant::InvokeStatic(MethodOrInterfaceMethodIndex(9)),
        MethodHandleConstant::InvokeInterface(InterfaceMethodIndex(9)),
    ];
    for (k, e) in expected.iter().enumerate() {
        assert_eq!(ok(&[15, k as u8 + 1, 0, 9]), Constant::MethodHandle(*e));
    }
}

#[test]
fn method_handle_bad_kind_is_malformed() {
    assert!(matches!(constant(&[15, 0, 0, 1]).0, Err(TryError::Malformed)));
    assert!(matches!(constant(&[15, 10, 0, 1]).0, Err(TryError::Malformed)));
    assert!(matches!(constant(&[15]).0, Err(TryError::NotEnoughBytes)));
}

#[test]
fn unknown_tags_are_malformed() {
    for tag in [0u8, 2, 13, 14, 17, 19, 255] {
        assert!(matches!(constant(&[tag, 0, 0, 0, 0]).0, Err(TryError::Malformed)));
    }
    assert!(matches!(constant(&[]).0, Err(TryError::NotEnoughBytes)));
}

fn pool() -> ConstantPool {
    ConstantPool::new(vec![
        Constant::String("Foo".to_string()),
        Constant::Class(ClassConstant { name: StringIndex(0) }),
        Constant::Method(MethodConstant { class: ClassIndex(1), name_and_type: NameAndTypeIndex(4) }),
        Constant::InterfaceMethod(InterfaceMethodConstant {
            class: ClassIndex(1),
            name_and_type: NameAndTypeIndex(4),
        }),
        Constant::NameAndType(NameAndTypeConstant { name: StringIndex(0), descriptor: StringIndex(0) }),
        Constant::I32(1),
    ])
    .unwrap()
}

#[test]
fn lookup_of_wrong_kind_fails_distinctly() {
    let p = pool();
    assert_eq!(p.class(ClassIndex(1)).unwrap().name, StringIndex(0));
    assert_eq!(p.class(ClassIndex(0)), Err(LookupError::WrongKind));
    assert_eq!(p.class(ClassIndex(6)), Err(LookupError::Absent));
    assert_eq!(p.string(StringIndex(0)).unwrap(), "Foo");
    assert_eq!(p.string(StringIndex(5)), Err(LookupError::WrongKind));
    assert_eq!(p.field(FieldIndex(2)), Err(LookupError::WrongKind));
    assert_eq!(p.method(MethodIndex(2)).unwrap().class, ClassIndex(1));
    assert_eq!(p.interface_method(InterfaceMethodIndex(2)), Err(LookupError::WrongKind));
    assert_eq!(p.name_and_type(NameAndTypeIndex(4)).unwrap().name, StringIndex(0));
}

#[test]
fn method_or_interface_method_accepts_both() {
    let p = pool();
    assert!(matches!(p.method_or_interface_method(MethodOrInterfaceMethodIndex(2)), Ok(Constant::Method(_))));
    assert!(matches!(
        p.method_or_interface_method(MethodOrInterfaceMethodIndex(3)),
        Ok(Constant::InterfaceMethod(_))
    ));
    assert_eq!(p.method_or_interface_method(MethodOrInterfaceMethodIndex(1)), Err(LookupError::WrongKind));
    assert_eq!(p.method_or_interface_method(MethodOrInterfaceMethodIndex(99)), Err(LookupError::Absent));
}

#[test]
fn pool_decodes_with_one_based_count() {
    let mut c = Cursor::new(vec![0, 3, 7, 0, 1, 1, 0, 1, b'A']);
    let p = ConstantPool::try_read(&mut c).unwrap();
    assert_eq!(p.len(), 2);
    assert_eq!(p.get(1), Some(&Constant::String("A".to_string())));
    assert_eq!(p.get(2), None);
    let mut c = Cursor::new(vec![0, 0]);
    assert!(matches!(ConstantPool::try_read(&mut c), Err(TryError::Malformed)));
}
