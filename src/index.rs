//! Typed positions into the constant pool. Each wraps a 16-bit position and
//! records which kind of entry it must resolve to; the kind is checked only
//! when the pool is consulted.
use vstd::prelude::*;

use crate::codec::{be16, fixed_read, Cursor, TryError, TryReadFrom};

verus! {

/// A pool position that must hold a textual constant.
#[derive(Debug, Clone, Copy, PartialEq, Eq, Structural)]
pub struct StringIndex(pub u16);

impl View for StringIndex {
    type V = StringIndex;

    open spec fn view(&self) -> StringIndex {
        *self
    }
}

impl TryReadFrom for StringIndex {
    open spec fn spec_read(s: Seq<u8>) -> Result<(StringIndex, int), TryError> {
        fixed_read(s, 2, StringIndex(be16(s) as u16))
    }

    fn try_read(buf: &mut Cursor) -> (r: Result<StringIndex, TryError>) {
        let ghost s = buf@;
        match buf.read_u16() {
            Ok(v) => {
                let r = StringIndex(v);
                assert(r@ == StringIndex(be16(s) as u16));
                assert(StringIndex::spec_read(s) == Ok::<(StringIndex, int), TryError>((r, 2)));
                Ok(r)
            },
            Err(e) => Err(e),
        }
    }
}

/// A pool position that must hold a field reference.
#[derive(Debug, Clone, Copy, PartialEq, Eq, Structural)]
pub struct FieldIndex(pub u16);

impl View for FieldIndex {
    type V = FieldIndex;

    open spec fn view(&self) -> FieldIndex {
        *self
    }
}

impl TryReadFrom for FieldIndex {
    open spec fn spec_read(s: Seq<u8>) -> Result<(FieldIndex, int), TryError> {
        fixed_read(s, 2, FieldIndex(be16(s) as u16))
    }

    fn try_read(buf: &mut Cursor) -> (r: Result<FieldIndex, TryError>) {
        let ghost s = buf@;
        match buf.read_u16() {
            Ok(v) => {
                let r = FieldIndex(v);
                assert(r@ == FieldIndex(be16(s) as u16));
                assert(FieldIndex::spec_read(s) == Ok::<(FieldIndex, int), TryError>((r, 2)));
                Ok(r)
            },
            Err(e) => Err(e),
        }
    }
}

/// A pool position that must hold a class reference.
#[derive(Debug, Clone, Copy, PartialEq, Eq, Structural)]
pub struct ClassIndex(pub u16);

impl View for ClassIndex {
    type V = ClassIndex;

    open spec fn view(&self) -> ClassIndex {
        *self
    }
}

impl TryReadFrom for ClassIndex {
    open spec fn spec_read(s: Seq<u8>) -> Result<(ClassIndex, int), TryError> {
        fixed_read(s, 2, ClassIndex(be16(s) as u16))
    }

    fn try_read(buf: &mut Cursor) -> (r: Result<ClassIndex, TryError>) {
        let ghost s = buf@;
        match buf.read_u16() {
            Ok(v) => {
                let r = ClassIndex(v);
                assert(r@ == ClassIndex(be16(s) as u16));
                assert(ClassIndex::spec_read(s) == Ok::<(ClassIndex, int), TryError>((r, 2)));
                Ok(r)
            },
            Err(e) => Err(e),
        }
    }
}

/// A pool position that must hold a name-and-type pair.
#[derive(Debug, Clone, Copy, PartialEq, Eq, Structural)]
pub struct NameAndTypeIndex(pub u16);

impl View for NameAndTypeIndex {
    type V = NameAndTypeIndex;

    open spec fn view(&self) -> NameAndTypeIndex {
        *self
    }
}

impl TryReadFrom for NameAndTypeIndex {
    open spec fn spec_read(s: Seq<u8>) -> Result<(NameAndTypeIndex, int), TryError> {
        fixed_read(s, 2, NameAndTypeIndex(be16(s) as u16))
    }

    fn try_read(buf: &mut Cursor) -> (r: Result<NameAndTypeIndex, TryError>) {
        let ghost s = buf@;
        match buf.read_u16() {
            Ok(v) => {
                let r = NameAndTypeIndex(v);
                assert(r@ == NameAndTypeIndex(be16(s) as u16));
                assert(NameAndTypeIndex::spec_read(s) == Ok::<(NameAndTypeIndex, int), TryError>((r, 2)));
                Ok(r)
            },
            Err(e) => Err(e),
        }
    }
}

/// A pool position that must hold a method reference.
#[derive(Debug, Clone, Copy, PartialEq, Eq, Structural)]
pub struct MethodIndex(pub u16);

impl View for MethodIndex {
    type V = MethodIndex;

    open spec fn view(&self) -> MethodIndex {
        *self
    }
}

impl TryReadFrom for MethodIndex {
    open spec fn spec_read(s: Seq<u8>) -> Result<(MethodIndex, int), TryError> {
        fixed_read(s, 2, MethodIndex(be16(s) as u16))
    }

    fn try_read(buf: &mut Cursor) -> (r: Result<MethodIndex, TryError>) {
        let ghost s = buf@;
        match buf.read_u16() {
            Ok(v) => {
                let r = MethodIndex(v);
                assert(r@ == MethodIndex(be16(s) as u16));
                assert(MethodIndex::spec_read(s) == Ok::<(MethodIndex, int), TryError>((r, 2)));
                Ok(r)
            },
            Err(e) => Err(e),
        }
    }
}

/// A pool position that must hold a method or an interface-method reference.
#[derive(Debug, Clone, Copy, PartialEq, Eq, Structural)]
pub struct MethodOrInterfaceMethodIndex(pub u16);

impl View for MethodOrInterfaceMethodIndex {
    type V = MethodOrInterfaceMethodIndex;

    open spec fn view(&self) -> MethodOrInterfaceMethodIndex {
        *self
    }
}

impl TryReadFrom for MethodOrInterfaceMethodIndex {
    open spec fn spec_read(s: Seq<u8>) -> Result<(MethodOrInterfaceMethodIndex, int), TryError> {
        fixed_read(s, 2, MethodOrInterfaceMethodIndex(be16(s) as u16))
    }

    fn try_read(buf: &mut Cursor) -> (r: Result<MethodOrInterfaceMethodIndex, TryError>) {
        let ghost s = buf@;
        match buf.read_u16() {
            Ok(v) => {
                let r = MethodOrInterfaceMethodIndex(v);
                assert(r@ == MethodOrInterfaceMethodIndex(be16(s) as u16));
                assert(MethodOrInterfaceMethodIndex::spec_read(s) == Ok::<(MethodOrInterfaceMethodIndex, int), TryError>((r, 2)));
                Ok(r)
            },
            Err(e) => Err(e),
        }
    }
}

/// A pool position that must hold an interface-method reference.
#[derive(Debug, Clone, Copy, PartialEq, Eq, Structural)]
pub struct InterfaceMethodIndex(pub u16);

impl View for InterfaceMethodIndex {
    type V = InterfaceMethodIndex;

    open spec fn view(&self) -> InterfaceMethodIndex {
        *self
    }
}

impl TryReadFrom for InterfaceMethodIndex {
    open spec fn spec_read(s: Seq<u8>) -> Result<(InterfaceMethodIndex, int), TryError> {
        fixed_read(s, 2, InterfaceMethodIndex(be16(s) as u16))
    }

    fn try_read(buf: &mut Cursor) -> (r: Result<InterfaceMethodIndex, TryError>) {
        let ghost s = buf@;
        match buf.read_u16() {
            Ok(v) => {
                let r = InterfaceMethodIndex(v);
                assert(r@ == InterfaceMethodIndex(be16(s) as u16));
                assert(InterfaceMethodIndex::spec_read(s) == Ok::<(InterfaceMethodIndex, int), TryError>((r, 2)));
                Ok(r)
            },
            Err(e) => Err(e),
        }
    }
}

} // verus!
