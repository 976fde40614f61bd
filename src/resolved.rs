//! A resolved view of pool entries: references followed into owned values.
//! Resolution is a pure transform over an already-decoded pool and fails
//! with the first lookup that fails.
use vstd::prelude::*;

use crate::constant_pool::{self as raw, ConstantPool, ConstantView, LookupError};
use crate::index::{
    ClassIndex, FieldIndex, InterfaceMethodIndex, MethodIndex, NameAndTypeIndex, StringIndex,
};

verus! {

/// A class, by name.
pub struct ClassConstant {
    pub name: String,
}

/// A field or method descriptor.
pub struct DescriptorConstant(pub String);

/// A name together with its descriptor.
pub struct NameAndTypeConstant {
    pub name: String,
    pub descriptor: DescriptorConstant,
}

/// A field of a class.
pub struct FieldConstant {
    pub class: ClassConstant,
    pub name_and_type: NameAndTypeConstant,
}

/// A method of a class.
pub struct MethodConstant {
    pub class: ClassConstant,
    pub name_and_type: NameAndTypeConstant,
}

/// A method of an interface.
pub struct InterfaceMethodConstant {
    pub class: ClassConstant,
    pub name_and_type: NameAndTypeConstant,
}

/// The target of an invoke-special handle.
pub enum MethodHandleInvokeSpecialConstant {
    Method(MethodConstant),
    InterfaceMethod(InterfaceMethodConstant),
}

/// The target of an invoke-static handle.
pub enum MethodHandleInvokeStaticConstant {
    Method(MethodConstant),
    InterfaceMethod(InterfaceMethodConstant),
}

/// A method handle with its target resolved.
pub enum MethodHandleConstant {
    GetField(FieldConstant),
    GetStatic(FieldConstant),
    PutField(FieldConstant),
    PutStatic(FieldConstant),
    InvokeVirtual(MethodConstant),
    NewInvokeSpecial(MethodConstant),
    InvokeSpecial(MethodHandleInvokeSpecialConstant),
    InvokeStatic(MethodHandleInvokeStaticConstant),
    InvokeInterface(InterfaceMethodConstant),
}

/// A dynamic call site with its name and type resolved.
pub struct InvokeDynamicConstant {
    pub bootstrap_method_attr: u16,
    pub name_and_type: NameAndTypeConstant,
}

/// A pool entry with its references resolved. Floating-point values are
/// held as their IEEE 754 bit patterns.
pub enum Constant {
    String(String),
    I32(i32),
    F32(u32),
    I64(i64),
    F64(u64),
    Class(ClassConstant),
    StringRef(String),
    Field(FieldConstant),
    Method(MethodConstant),
    InterfaceMethod(InterfaceMethodConstant),
    NameAndType(NameAndTypeConstant),
    MethodHandle(MethodHandleConstant),
    MethodType(DescriptorConstant),
    InvokeDynamic(InvokeDynamicConstant),
}

/// The text at position `i`.
pub open spec fn text_at(pool: Seq<ConstantView>, i: StringIndex) -> Result<Seq<char>, LookupError> {
    if i.0 >= pool.len() {
        Err(LookupError::Absent)
    } else {
        match pool[i.0 as int] {
            ConstantView::Text(t) => Ok(t),
            _ => Err(LookupError::WrongKind),
        }
    }
}

/// The class reference at position `i`.
pub open spec fn class_at(pool: Seq<ConstantView>, i: ClassIndex) -> Result<raw::ClassConstant, LookupError> {
    if i.0 >= pool.len() {
        Err(LookupError::Absent)
    } else {
        match pool[i.0 as int] {
            ConstantView::Class(c) => Ok(c),
            _ => Err(LookupError::WrongKind),
        }
    }
}

/// The name-and-type pair at position `i`.
pub open spec fn name_and_type_at(pool: Seq<ConstantView>, i: NameAndTypeIndex) -> Result<
    raw::NameAndTypeConstant,
    LookupError,
> {
    if i.0 >= pool.len() {
        Err(LookupError::Absent)
    } else {
        match pool[i.0 as int] {
            ConstantView::NameAndType(c) => Ok(c),
            _ => Err(LookupError::WrongKind),
        }
    }
}

/// The name of the class that `i` refers to.
pub open spec fn spec_class(pool: Seq<ConstantView>, i: ClassIndex) -> Result<Seq<char>, LookupError> {
    match class_at(pool, i) {
        Err(e) => Err(e),
        Ok(c) => text_at(pool, c.name),
    }
}

/// The name and the descriptor that `i` refers to.
pub open spec fn spec_name_and_type(pool: Seq<ConstantView>, i: NameAndTypeIndex) -> Result<
    (Seq<char>, Seq<char>),
    LookupError,
> {
    match name_and_type_at(pool, i) {
        Err(e) => Err(e),
        Ok(c) => match text_at(pool, c.name) {
            Err(e) => Err(e),
            Ok(n) => match text_at(pool, c.descriptor) {
                Err(e) => Err(e),
                Ok(d) => Ok((n, d)),
            },
        },
    }
}

/// The class name, member name and descriptor of a member reference.
pub open spec fn spec_member(pool: Seq<ConstantView>, class: ClassIndex, name_and_type: NameAndTypeIndex) -> Result<
    (Seq<char>, (Seq<char>, Seq<char>)),
    LookupError,
> {
    match spec_class(pool, class) {
        Err(e) => Err(e),
        Ok(c) => match spec_name_and_type(pool, name_and_type) {
            Err(e) => Err(e),
            Ok(n) => Ok((c, n)),
        },
    }
}

/// Whether a resolved class and name-and-type hold the texts `m`.
pub open spec fn holds_member(
    class: ClassConstant,
    name_and_type: NameAndTypeConstant,
    m: (Seq<char>, (Seq<char>, Seq<char>)),
) -> bool {
    class.name@ == m.0 && name_and_type.name@ == m.1.0 && name_and_type.descriptor.0@ == m.1.1
}

/// The member reference of kind `kind` at position `i`, as its class and
/// name-and-type references.
pub open spec fn member_at(pool: Seq<ConstantView>, i: u16, kind: MemberKind) -> Result<
    (ClassIndex, NameAndTypeIndex),
    LookupError,
> {
    if i >= pool.len() {
        Err(LookupError::Absent)
    } else {
        match pool[i as int] {
            ConstantView::Field(c) => if kind is Field {
                Ok((c.class, c.name_and_type))
            } else {
                Err(LookupError::WrongKind)
            },
            ConstantView::Method(c) => if kind is Method || kind is MethodOrInterfaceMethod {
                Ok((c.class, c.name_and_type))
            } else {
                Err(LookupError::WrongKind)
            },
            ConstantView::InterfaceMethod(c) => if kind is InterfaceMethod
                || kind is MethodOrInterfaceMethod {
                Ok((c.class, c.name_and_type))
            } else {
                Err(LookupError::WrongKind)
            },
            _ => Err(LookupError::WrongKind),
        }
    }
}

/// Which entry kinds a member reference accepts.
pub ghost enum MemberKind {
    Field,
    Method,
    InterfaceMethod,
    MethodOrInterfaceMethod,
}

/// The texts of the member reference of kind `kind` at position `i`.
pub open spec fn spec_member_at(pool: Seq<ConstantView>, i: u16, kind: MemberKind) -> Result<
    (Seq<char>, (Seq<char>, Seq<char>)),
    LookupError,
> {
    match member_at(pool, i, kind) {
        Err(e) => Err(e),
        Ok((c, n)) => spec_member(pool, c, n),
    }
}

/// The position and the accepted kinds of a method handle's target.
pub open spec fn handle_target(h: raw::MethodHandleConstant) -> (u16, MemberKind) {
    match h {
        raw::MethodHandleConstant::GetField(i) => (i.0, MemberKind::Field),
        raw::MethodHandleConstant::GetStatic(i) => (i.0, MemberKind::Field),
        raw::MethodHandleConstant::PutField(i) => (i.0, MemberKind::Field),
        raw::MethodHandleConstant::PutStatic(i) => (i.0, MemberKind::Field),
        raw::MethodHandleConstant::InvokeVirtual(i) => (i.0, MemberKind::Method),
        raw::MethodHandleConstant::NewInvokeSpecial(i) => (i.0, MemberKind::Method),
        raw::MethodHandleConstant::InvokeSpecial(i) => (i.0, MemberKind::MethodOrInterfaceMethod),
        raw::MethodHandleConstant::InvokeStatic(i) => (i.0, MemberKind::MethodOrInterfaceMethod),
        raw::MethodHandleConstant::InvokeInterface(i) => (i.0, MemberKind::InterfaceMethod),
    }
}

/// Whether a resolved either-kind target matches the entry at `i` and
/// holds the texts `m`.
pub open spec fn holds_either(
    pool: Seq<ConstantView>,
    i: u16,
    is_method: bool,
    class: ClassConstant,
    name_and_type: NameAndTypeConstant,
    m: (Seq<char>, (Seq<char>, Seq<char>)),
) -> bool {
    holds_member(class, name_and_type, m) && (if is_method {
        pool[i as int] is Method
    } else {
        pool[i as int] is InterfaceMethod
    })
}

/// Whether resolved handle `r` has the kind of `h` and holds the texts `m`
/// of its target.
pub open spec fn holds_handle(
    pool: Seq<ConstantView>,
    h: raw::MethodHandleConstant,
    r: MethodHandleConstant,
    m: (Seq<char>, (Seq<char>, Seq<char>)),
) -> bool {
    let i = handle_target(h).0;
    match (h, r) {
        (raw::MethodHandleConstant::GetField(_), MethodHandleConstant::GetField(f)) => holds_member(f.class, f.name_and_type, m),
        (raw::MethodHandleConstant::GetStatic(_), MethodHandleConstant::GetStatic(f)) => holds_member(f.class, f.name_and_type, m),
        (raw::MethodHandleConstant::PutField(_), MethodHandleConstant::PutField(f)) => holds_member(f.class, f.name_and_type, m),
        (raw::MethodHandleConstant::PutStatic(_), MethodHandleConstant::PutStatic(f)) => holds_member(f.class, f.name_and_type, m),
        (raw::MethodHandleConstant::InvokeVirtual(_), MethodHandleConstant::InvokeVirtual(f)) => holds_member(f.class, f.name_and_type, m),
        (raw::MethodHandleConstant::NewInvokeSpecial(_), MethodHandleConstant::NewInvokeSpecial(f)) => holds_member(f.class, f.name_and_type, m),
        (raw::MethodHandleConstant::InvokeSpecial(_), MethodHandleConstant::InvokeSpecial(t)) => match t {
            MethodHandleInvokeSpecialConstant::Method(f) => holds_either(pool, i, true, f.class, f.name_and_type, m),
            MethodHandleInvokeSpecialConstant::InterfaceMethod(f) => holds_either(pool, i, false, f.class, f.name_and_type, m),
        },
        (raw::MethodHandleConstant::InvokeStatic(_), MethodHandleConstant::InvokeStatic(t)) => match t {
            MethodHandleInvokeStaticConstant::Method(f) => holds_either(pool, i, true, f.class, f.name_and_type, m),
            MethodHandleInvokeStaticConstant::InterfaceMethod(f) => holds_either(pool, i, false, f.class, f.name_and_type, m),
        },
        (raw::MethodHandleConstant::InvokeInterface(_), MethodHandleConstant::InvokeInterface(f)) => holds_member(f.class, f.name_and_type, m),
        _ => false,
    }
}

/// Whether `r` is the resolution of pool entry `c`: the entry with every
/// reference replaced by what it refers to, or the first failing lookup.
pub open spec fn resolves_entry(pool: Seq<ConstantView>, c: ConstantView, r: Result<Constant, LookupError>) -> bool {
    match c {
        ConstantView::Text(t) => r matches Ok(Constant::String(x)) && x@ == t,
        ConstantView::I32(v) => r matches Ok(Constant::I32(x)) && x == v,
        ConstantView::F32(v) => r matches Ok(Constant::F32(x)) && x == v,
        ConstantView::I64(v) => r matches Ok(Constant::I64(x)) && x == v,
        ConstantView::F64(v) => r matches Ok(Constant::F64(x)) && x == v,
        ConstantView::Class(k) => match text_at(pool, k.name) {
            Ok(t) => r matches Ok(Constant::Class(x)) && x.name@ == t,
            Err(e) => r == Err::<Constant, LookupError>(e),
        },
        ConstantView::StringRef(k) => match text_at(pool, k.string) {
            Ok(t) => r matches Ok(Constant::StringRef(x)) && x@ == t,
            Err(e) => r == Err::<Constant, LookupError>(e),
        },
        ConstantView::Field(k) => match spec_member(pool, k.class, k.name_and_type) {
            Ok(m) => r matches Ok(Constant::Field(f)) && holds_member(f.class, f.name_and_type, m),
            Err(e) => r == Err::<Constant, LookupError>(e),
        },
        ConstantView::Method(k) => match spec_member(pool, k.class, k.name_and_type) {
            Ok(m) => r matches Ok(Constant::Method(f)) && holds_member(f.class, f.name_and_type, m),
            Err(e) => r == Err::<Constant, LookupError>(e),
        },
        ConstantView::InterfaceMethod(k) => match spec_member(pool, k.class, k.name_and_type) {
            Ok(m) => r matches Ok(Constant::InterfaceMethod(f)) && holds_member(f.class, f.name_and_type, m),
            Err(e) => r == Err::<Constant, LookupError>(e),
        },
        ConstantView::NameAndType(k) => match text_at(pool, k.name) {
            Err(e) => r == Err::<Constant, LookupError>(e),
            Ok(n) => match text_at(pool, k.descriptor) {
                Err(e) => r == Err::<Constant, LookupError>(e),
                Ok(d) => r matches Ok(Constant::NameAndType(x)) && x.name@ == n && x.descriptor.0@ == d,
            },
        },
        ConstantView::MethodHandle(h) => match spec_member_at(pool, handle_target(h).0, handle_target(h).1) {
            Ok(m) => r matches Ok(Constant::MethodHandle(x)) && holds_handle(pool, h, x, m),
            Err(e) => r == Err::<Constant, LookupError>(e),
        },
        ConstantView::MethodType(k) => match text_at(pool, k.descriptor) {
            Ok(t) => r matches Ok(Constant::MethodType(x)) && x.0@ == t,
            Err(e) => r == Err::<Constant, LookupError>(e),
        },
        ConstantView::InvokeDynamic(k) => match spec_name_and_type(pool, k.name_and_type) {
            Ok((n, d)) => r matches Ok(Constant::InvokeDynamic(x)) && x.bootstrap_method_attr == k.bootstrap_method_attr
                && x.name_and_type.name@ == n && x.name_and_type.descriptor.0@ == d,
            Err(e) => r == Err::<Constant, LookupError>(e),
        },
    }
}

fn clone_text(s: &String) -> (r: String)
    ensures
        r@ == s@,
{
    s.clone()
}

impl ConstantPool {
    /// The text at `index`, copied out of the pool.
    pub fn resolve_string(&self, index: StringIndex) -> (r: Result<String, LookupError>)
        ensures
            match text_at(self@, index) {
                Ok(t) => r matches Ok(x) && x@ == t,
                Err(e) => r == Err::<String, LookupError>(e),
            },
    {
        match self.string(index) {
            Ok(s) => Ok(clone_text(s)),
            Err(e) => Err(e),
        }
    }

    /// The class at `index`, with its name resolved.
    pub fn resolve_class(&self, index: ClassIndex) -> (r: Result<ClassConstant, LookupError>)
        ensures
            match spec_class(self@, index) {
                Ok(t) => r matches Ok(x) && x.name@ == t,
                Err(e) => r == Err::<ClassConstant, LookupError>(e),
            },
    {
        let c = match self.class(index) {
            Ok(c) => *c,
            Err(e) => return Err(e),
        };
        match self.resolve_string(c.name) {
            Ok(name) => Ok(ClassConstant { name }),
            Err(e) => Err(e),
        }
    }

    /// The name-and-type pair at `index`, with both texts resolved.
    pub fn resolve_name_and_type(&self, index: NameAndTypeIndex) -> (r: Result<NameAndTypeConstant, LookupError>)
        ensures
            match spec_name_and_type(self@, index) {
                Ok((n, d)) => r matches Ok(x) && x.name@ == n && x.descriptor.0@ == d,
                Err(e) => r == Err::<NameAndTypeConstant, LookupError>(e),
            },
    {
        let c = match self.name_and_type(index) {
            Ok(c) => *c,
            Err(e) => return Err(e),
        };
        let name = match self.resolve_string(c.name) {
            Ok(n) => n,
            Err(e) => return Err(e),
        };
        match self.resolve_string(c.descriptor) {
            Ok(d) => Ok(NameAndTypeConstant { name, descriptor: DescriptorConstant(d) }),
            Err(e) => Err(e),
        }
    }

    fn resolve_member(&self, class: ClassIndex, name_and_type: NameAndTypeIndex) -> (r: Result<
        (ClassConstant, NameAndTypeConstant),
        LookupError,
    >)
        ensures
            match spec_member(self@, class, name_and_type) {
                Ok(m) => r matches Ok((c, n)) && holds_member(c, n, m),
                Err(e) => r == Err::<(ClassConstant, NameAndTypeConstant), LookupError>(e),
            },
    {
        let c = match self.resolve_class(class) {
            Ok(c) => c,
            Err(e) => return Err(e),
        };
        match self.resolve_name_and_type(name_and_type) {
            Ok(n) => Ok((c, n)),
            Err(e) => Err(e),
        }
    }

    fn resolve_member_at(&self, i: u16, kind: Ghost<MemberKind>, accept_field: bool, accept_method: bool, accept_interface: bool) -> (r: Result<
        (ClassConstant, NameAndTypeConstant, bool),
        LookupError,
    >)
        requires
            accept_field == (kind@ is Field),
            accept_method == (kind@ is Method || kind@ is MethodOrInterfaceMethod),
            accept_interface == (kind@ is InterfaceMethod || kind@ is MethodOrInterfaceMethod),
        ensures
            match spec_member_at(self@, i, kind@) {
                Ok(m) => r matches Ok((c, n, is_method)) && holds_member(c, n, m)
                    && (is_method <==> self@[i as int] is Method),
                Err(e) => r == Err::<(ClassConstant, NameAndTypeConstant, bool), LookupError>(e),
            },
    {
        let (class, name_and_type, is_method) = match self.get(i) {
            None => return Err(LookupError::Absent),
            Some(raw::Constant::Field(c)) if accept_field => (c.class, c.name_and_type, false),
            Some(raw::Constant::Method(c)) if accept_method => (c.class, c.name_and_type, true),
            Some(raw::Constant::InterfaceMethod(c)) if accept_interface => (c.class, c.name_and_type, false),
            Some(_) => return Err(LookupError::WrongKind),
        };
        match self.resolve_member(class, name_and_type) {
            Ok((c, n)) => Ok((c, n, is_method)),
            Err(e) => Err(e),
        }
    }

    /// The field reference at `index`, resolved.
    pub fn resolve_field(&self, index: FieldIndex) -> (r: Result<FieldConstant, LookupError>)
        ensures
            match spec_member_at(self@, index.0, MemberKind::Field) {
                Ok(m) => r matches Ok(f) && holds_member(f.class, f.name_and_type, m),
                Err(e) => r == Err::<FieldConstant, LookupError>(e),
            },
    {
        match self.resolve_member_at(index.0, Ghost(MemberKind::Field), true, false, false) {
            Ok((class, name_and_type, _)) => Ok(FieldConstant { class, name_and_type }),
            Err(e) => Err(e),
        }
    }

    /// The method reference at `index`, resolved.
    pub fn resolve_method(&self, index: MethodIndex) -> (r: Result<MethodConstant, LookupError>)
        ensures
            match spec_member_at(self@, index.0, MemberKind::Method) {
                Ok(m) => r matches Ok(f) && holds_member(f.class, f.name_and_type, m),
                Err(e) => r == Err::<MethodConstant, LookupError>(e),
            },
    {
        match self.resolve_member_at(index.0, Ghost(MemberKind::Method), false, true, false) {
            Ok((class, name_and_type, _)) => Ok(MethodConstant { class, name_and_type }),
            Err(e) => Err(e),
        }
    }

    /// The interface-method reference at `index`, resolved.
    pub fn resolve_interface_method(&self, index: InterfaceMethodIndex) -> (r: Result<InterfaceMethodConstant, LookupError>)
        ensures
            match spec_member_at(self@, index.0, MemberKind::InterfaceMethod) {
                Ok(m) => r matches Ok(f) && holds_member(f.class, f.name_and_type, m),
                Err(e) => r == Err::<InterfaceMethodConstant, LookupError>(e),
            },
    {
        match self.resolve_member_at(index.0, Ghost(MemberKind::InterfaceMethod), false, false, true) {
            Ok((class, name_and_type, _)) => Ok(InterfaceMethodConstant { class, name_and_type }),
            Err(e) => Err(e),
        }
    }

    /// The target of `handle`, resolved; an invoke-special or invoke-static
    /// target may be a method or an interface method.
    pub fn resolve_method_handle(&self, handle: raw::MethodHandleConstant) -> (r: Result<MethodHandleConstant, LookupError>)
        ensures
            match spec_member_at(self@, handle_target(handle).0, handle_target(handle).1) {
                Ok(m) => r matches Ok(x) && holds_handle(self@, handle, x, m),
                Err(e) => r == Err::<MethodHandleConstant, LookupError>(e),
            },
    {
        match handle {
            raw::MethodHandleConstant::GetField(i) => match self.resolve_field(i) {
                Ok(f) => Ok(MethodHandleConstant::GetField(f)),
                Err(e) => Err(e),
            },
            raw::MethodHandleConstant::GetStatic(i) => match self.resolve_field(i) {
                Ok(f) => Ok(MethodHandleConstant::GetStatic(f)),
                Err(e) => Err(e),
            },
            raw::MethodHandleConstant::PutField(i) => match self.resolve_field(i) {
                Ok(f) => Ok(MethodHandleConstant::PutField(f)),
                Err(e) => Err(e),
            },
            raw::MethodHandleConstant::PutStatic(i) => match self.resolve_field(i) {
                Ok(f) => Ok(MethodHandleConstant::PutStatic(f)),
                Err(e) => Err(e),
            },
            raw::MethodHandleConstant::InvokeVirtual(i) => match self.resolve_method(i) {
                Ok(f) => Ok(MethodHandleConstant::InvokeVirtual(f)),
                Err(e) => Err(e),
            },
            raw::MethodHandleConstant::NewInvokeSpecial(i) => match self.resolve_method(i) {
                Ok(f) => Ok(MethodHandleConstant::NewInvokeSpecial(f)),
                Err(e) => Err(e),
            },
            raw::MethodHandleConstant::InvokeSpecial(i) => match self.resolve_member_at(
                i.0,
                Ghost(MemberKind::MethodOrInterfaceMethod),
                false,
                true,
                true,
            ) {
                Ok((class, name_and_type, true)) => Ok(
                    MethodHandleConstant::InvokeSpecial(
                        MethodHandleInvokeSpecialConstant::Method(MethodConstant { class, name_and_type }),
                    ),
                ),
                Ok((class, name_and_type, false)) => Ok(
                    MethodHandleConstant::InvokeSpecial(
                        MethodHandleInvokeSpecialConstant::InterfaceMethod(
                            InterfaceMethodConstant { class, name_and_type },
                        ),
                    ),
                ),
                Err(e) => Err(e),
            },
            raw::MethodHandleConstant::InvokeStatic(i) => match self.resolve_member_at(
                i.0,
                Ghost(MemberKind::MethodOrInterfaceMethod),
                false,
                true,
                true,
            ) {
                Ok((class, name_and_type, true)) => Ok(
                    MethodHandleConstant::InvokeStatic(
                        MethodHandleInvokeStaticConstant::Method(MethodConstant { class, name_and_type }),
                    ),
                ),
                Ok((class, name_and_type, false)) => Ok(
                    MethodHandleConstant::InvokeStatic(
                        MethodHandleInvokeStaticConstant::InterfaceMethod(
                            InterfaceMethodConstant { class, name_and_type },
                        ),
                    ),
                ),
                Err(e) => Err(e),
            },
            raw::MethodHandleConstant::InvokeInterface(i) => match self.resolve_interface_method(i) {
                Ok(f) => Ok(MethodHandleConstant::InvokeInterface(f)),
                Err(e) => Err(e),
            },
        }
    }

    /// The entry at `position` with its references resolved.
    pub fn resolve(&self, position: u16) -> (r: Result<Constant, LookupError>)
        ensures
            position >= self@.len() ==> r == Err::<Constant, LookupError>(LookupError::Absent),
            position < self@.len() ==> resolves_entry(self@, self@[position as int], r),
    {
        let entry = match self.get(position) {
            Some(c) => c,
            None => return Err(LookupError::Absent),
        };
        match entry {
            raw::Constant::String(t) => Ok(Constant::String(clone_text(t))),
            raw::Constant::I32(v) => Ok(Constant::I32(*v)),
            raw::Constant::F32(v) => Ok(Constant::F32(*v)),
            raw::Constant::I64(v) => Ok(Constant::I64(*v)),
            raw::Constant::F64(v) => Ok(Constant::F64(*v)),
            raw::Constant::Class(k) => match self.resolve_string(k.name) {
                Ok(name) => Ok(Constant::Class(ClassConstant { name })),
                Err(e) => Err(e),
            },
            raw::Constant::StringRef(k) => match self.resolve_string(k.string) {
                Ok(t) => Ok(Constant::StringRef(t)),
                Err(e) => Err(e),
            },
            raw::Constant::Field(k) => match self.resolve_member(k.class, k.name_and_type) {
                Ok((class, name_and_type)) => Ok(Constant::Field(FieldConstant { class, name_and_type })),
                Err(e) => Err(e),
            },
            raw::Constant::Method(k) => match self.resolve_member(k.class, k.name_and_type) {
                Ok((class, name_and_type)) => Ok(Constant::Method(MethodConstant { class, name_and_type })),
                Err(e) => Err(e),
            },
            raw::Constant::InterfaceMethod(k) => match self.resolve_member(k.class, k.name_and_type) {
                Ok((class, name_and_type)) => Ok(
                    Constant::InterfaceMethod(InterfaceMethodConstant { class, name_and_type }),
                ),
                Err(e) => Err(e),
            },
            raw::Constant::NameAndType(k) => {
                let name = match self.resolve_string(k.name) {
                    Ok(n) => n,
                    Err(e) => return Err(e),
                };
                match self.resolve_string(k.descriptor) {
                    Ok(d) => Ok(
                        Constant::NameAndType(NameAndTypeConstant { name, descriptor: DescriptorConstant(d) }),
                    ),
                    Err(e) => Err(e),
                }
            },
            raw::Constant::MethodHandle(h) => match self.resolve_method_handle(*h) {
                Ok(x) => Ok(Constant::MethodHandle(x)),
                Err(e) => Err(e),
            },
            raw::Constant::MethodType(k) => match self.resolve_string(k.descriptor) {
                Ok(d) => Ok(Constant::MethodType(DescriptorConstant(d))),
                Err(e) => Err(e),
            },
            raw::Constant::InvokeDynamic(k) => match self.resolve_name_and_type(k.name_and_type) {
                Ok(name_and_type) => Ok(
                    Constant::InvokeDynamic(
                        InvokeDynamicConstant { bootstrap_method_attr: k.bootstrap_method_attr, name_and_type },
                    ),
                ),
                Err(e) => Err(e),
            },
        }
    }
}

} // verus!
