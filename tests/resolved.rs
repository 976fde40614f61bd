use espresso::resolved;
use espresso::{
    ClassConstant, ClassIndex, Constant, ConstantPool, FieldConstant, FieldIndex,
    InterfaceMethodConstant, InterfaceMethodIndex, InvokeDynamicConstant, LookupError,
    MethodConstant, MethodHandleConstant, MethodIndex, MethodOrInterfaceMethodIndex,
    MethodTypeConstant, NameAndTypeConstant, NameAndTypeIndex, StringIndex, StringRefConstant,
};

fn pool() -> ConstantPool {
    let class = ClassIndex(1);
    let nat = NameAndTypeIndex(4);
    ConstantPool::new(vec![
        Constant::String("Foo".to_string()),
        Constant::Class(ClassConstant { name: StringIndex(0) }),
        Constant::String("bar".to_string()),
        Constant::String("()V".to_string()),
        Constant::NameAndType(NameAndTypeConstant { name: StringIndex(2), descriptor: StringIndex(3) }),
        Constant::Method(MethodConstant { class, name_and_type: nat }),
        Constant::InterfaceMethod(InterfaceMethodConstant { class, name_and_type: nat }),
        Constant::Field(FieldConstant { class, name_and_type: nat }),
        Constant::MethodHandle(MethodHandleConstant::InvokeSpecial(MethodOrInterfaceMethodIndex(6))),
        Constant::MethodHandle(MethodHandleConstant::GetField(FieldIndex(7))),
        Constant::I32(5),
        Constant::Class(ClassConstant { name: StringIndex(10) }),
        Constant::StringRef(StringRefConstant { string: StringIndex(0) }),
        Constant::MethodType(MethodTypeConstant { descriptor: StringIndex(3) }),
        Constant::InvokeDynamic(InvokeDynamicConstant { bootstrap_method_attr: 7, name_and_type: nat }),
        Constant::MethodHandle(MethodHandleConstant::InvokeVirtual(MethodIndex(6))),
    ])
    .unwrap()
}

#[test]
fn resolves_class_and_members() {
    let p = pool();
    assert_eq!(p.resolve_class(ClassIndex(1)).ok().unwrap().name, "Foo");
    let m = p.resolve_method(MethodIndex(5)).ok().unwrap();
    assert_eq!(m.class.name, "Foo");
    assert_eq!(m.name_and_type.name, "bar");
    assert_eq!(m.name_and_type.descriptor.0, "()V");
    let f = p.resolve_field(FieldIndex(7)).ok().unwrap();
    assert_eq!(f.name_and_type.name, "bar");
    let i = p.resolve_interface_method(InterfaceMethodIndex(6)).ok().unwrap();
    assert_eq!(i.class.name, "Foo");
}

#[test]
fn resolution_reports_the_failing_lookup() {
    let p = pool();
    assert_eq!(p.resolve_class(ClassIndex(11)).err(), Some(LookupError::WrongKind));
    assert_eq!(p.resolve_class(ClassIndex(0)).err(), Some(LookupError::WrongKind));
    assert_eq!(p.resolve_class(ClassIndex(40)).err(), Some(LookupError::Absent));
    assert_eq!(p.resolve_method(MethodIndex(6)).err(), Some(LookupError::WrongKind));
    assert_eq!(p.resolve(16).err(), Some(LookupError::Absent));
    assert_eq!(p.resolve(11).err(), Some(LookupError::WrongKind));
    assert_eq!(p.resolve(15).err(), Some(LookupError::WrongKind));
}

#[test]
fn resolves_method_handles() {
    let p = pool();
    match p.resolve(8) {
        Ok(resolved::Constant::MethodHandle(resolved::MethodHandleConstant::InvokeSpecial(
            resolved::MethodHandleInvokeSpecialConstant::InterfaceMethod(m),
        ))) => assert_eq!(m.name_and_type.name, "bar"),
        _ => panic!("expected an invoke-special handle on an interface method"),
    }
    match p.resolve(9) {
        Ok(resolved::Constant::MethodHandle(resolved::MethodHandleConstant::GetField(f))) => {
            assert_eq!(f.class.name, "Foo")
        }
        _ => panic!("expected a get-field handle"),
    }
    let h = MethodHandleConstant::InvokeStatic(MethodOrInterfaceMethodIndex(5));
    assert!(matches!(
        p.resolve_method_handle(h),
        Ok(resolved::MethodHandleConstant::InvokeStatic(
            resolved::MethodHandleInvokeStaticConstant::Method(_)
        ))
    ));
}

#[test]
fn resolves_every_entry_kind() {
    let p = pool();
    assert!(matches!(p.resolve(0), Ok(resolved::Constant::String(ref s)) if s == "Foo"));
    assert!(matches!(p.resolve(10), Ok(resolved::Constant::I32(5))));
    assert!(matches!(p.resolve(12), Ok(resolved::Constant::StringRef(ref s)) if s == "Foo"));
    assert!(matches!(p.resolve(13), Ok(resolved::Constant::MethodType(ref d)) if d.0 == "()V"));
    match p.resolve(14) {
        Ok(resolved::Constant::InvokeDynamic(d)) => {
            assert_eq!(d.bootstrap_method_attr, 7);
            assert_eq!(d.name_and_type.descriptor.0, "()V");
        }
        _ => panic!("expected an invoke-dynamic entry"),
    }
    match p.resolve(4) {
        Ok(resolved::Constant::NameAndType(n)) => assert_eq!(n.name, "bar"),
        _ => panic!("expected a name-and-type entry"),
    }
    assert_eq!(p.resolve_string(StringIndex(2)).ok(), Some("bar".to_string()));
}
