//! Constant-pool entries, their tag-dispatched decoder, and the pool with
//! kind-checked lookups.
use vstd::prelude::*;

use crate::codec::{
    be16, be32, be64, enc16, fixed_read, lemma_skip_skip, read_outcome, Cursor, TryError, TryReadFrom,
};
use crate::index::{
    ClassIndex, FieldIndex, InterfaceMethodIndex, MethodIndex, MethodOrInterfaceMethodIndex,
    NameAndTypeIndex, StringIndex,
};
use crate::prefixed::{OneOffset, PrefixedVec};

verus! {

/// A class or interface, named by a textual constant.
#[derive(Debug, Clone, Copy, PartialEq, Eq, Structural)]
pub struct ClassConstant {
    pub name: StringIndex,
}

/// A field or method name together with its descriptor.
#[derive(Debug, Clone, Copy, PartialEq, Eq, Structural)]
pub struct NameAndTypeConstant {
    pub name: StringIndex,
    pub descriptor: StringIndex,
}

/// A field of some class.
#[derive(Debug, Clone, Copy, PartialEq, Eq, Structural)]
pub struct FieldConstant {
    pub class: ClassIndex,
    pub name_and_type: NameAndTypeIndex,
}

/// A method of some class.
#[derive(Debug, Clone, Copy, PartialEq, Eq, Structural)]
pub struct MethodConstant {
    pub class: ClassIndex,
    pub name_and_type: NameAndTypeIndex,
}

/// A method of some interface.
#[derive(Debug, Clone, Copy, PartialEq, Eq, Structural)]
pub struct InterfaceMethodConstant {
    pub class: ClassIndex,
    pub name_and_type: NameAndTypeIndex,
}

/// One of the nine callable-reference kinds, each with a reference of the
/// kind that its target must have.
#[derive(Debug, Clone, Copy, PartialEq, Eq, Structural)]
pub enum MethodHandleConstant {
    GetField(FieldIndex),
    GetStatic(FieldIndex),
    PutField(FieldIndex),
    PutStatic(FieldIndex),
    InvokeVirtual(MethodIndex),
    NewInvokeSpecial(MethodIndex),
    InvokeSpecial(MethodOrInterfaceMethodIndex),
    InvokeStatic(MethodOrInterfaceMethodIndex),
    InvokeInterface(InterfaceMethodIndex),
}

/// A dynamic call site: an unvalidated bootstrap-method attribute index and
/// the name and type of the call.
#[derive(Debug, Clone, Copy, PartialEq, Eq, Structural)]
pub struct InvokeDynamicConstant {
    pub bootstrap_method_attr: u16,
    pub name_and_type: NameAndTypeIndex,
}

/// A method type, given by its descriptor.
#[derive(Debug, Clone, Copy, PartialEq, Eq, Structural)]
pub struct MethodTypeConstant {
    pub descriptor: StringIndex,
}

/// A string value, given by its textual constant.
#[derive(Debug, Clone, Copy, PartialEq, Eq, Structural)]
pub struct StringRefConstant {
    pub string: StringIndex,
}

/// One constant-pool entry. Floating-point values are held as their IEEE 754
/// bit patterns.
#[derive(Debug, PartialEq, Eq)]
pub enum Constant {
    String(String),
    I32(i32),
    F32(u32),
    I64(i64),
    F64(u64),
    Class(ClassConstant),
    StringRef(StringRefConstant),
    Field(FieldConstant),
    Method(MethodConstant),
    InterfaceMethod(InterfaceMethodConstant),
    NameAndType(NameAndTypeConstant),
    MethodHandle(MethodHandleConstant),
    MethodType(MethodTypeConstant),
    InvokeDynamic(InvokeDynamicConstant),
}

/// The mathematical value of a [`Constant`]: text as a sequence of characters.
pub ghost enum ConstantView {
    Text(Seq<char>),
    I32(i32),
    F32(u32),
    I64(i64),
    F64(u64),
    Class(ClassConstant),
    StringRef(StringRefConstant),
    Field(FieldConstant),
    Method(MethodConstant),
    InterfaceMethod(InterfaceMethodConstant),
    NameAndType(NameAndTypeConstant),
    MethodHandle(MethodHandleConstant),
    MethodType(MethodTypeConstant),
    InvokeDynamic(InvokeDynamicConstant),
}

impl View for Constant {
    type V = ConstantView;

    open spec fn view(&self) -> ConstantView {
        match self {
            Constant::String(s) => ConstantView::Text(s@),
            Constant::I32(v) => ConstantView::I32(*v),
            Constant::F32(v) => ConstantView::F32(*v),
            Constant::I64(v) => ConstantView::I64(*v),
            Constant::F64(v) => ConstantView::F64(*v),
            Constant::Class(c) => ConstantView::Class(*c),
            Constant::StringRef(c) => ConstantView::StringRef(*c),
            Constant::Field(c) => ConstantView::Field(*c),
            Constant::Method(c) => ConstantView::Method(*c),
            Constant::InterfaceMethod(c) => ConstantView::InterfaceMethod(*c),
            Constant::NameAndType(c) => ConstantView::NameAndType(*c),
            Constant::MethodHandle(c) => ConstantView::MethodHandle(*c),
            Constant::MethodType(c) => ConstantView::MethodType(*c),
            Constant::InvokeDynamic(c) => ConstantView::InvokeDynamic(*c),
        }
    }
}

/// The text that a byte sequence decodes to as UTF-8, or `None` when it is
/// not valid UTF-8.
pub uninterp spec fn utf8_text(b: Seq<u8>) -> Option<Seq<char>>;

/// Relies on `String::from_utf8`: it succeeds exactly on valid UTF-8, and
/// its text depends on the bytes alone.
#[verifier::external_body]
fn decode_utf8(b: Vec<u8>) -> (r: Option<String>)
    ensures
        r is Some <==> utf8_text(b@) is Some,
        r matches Some(t) ==> utf8_text(b@) == Some(t@),
{
    String::from_utf8(b).ok()
}

/// The method-handle kind selected by sub-tag `kind` (1 to 9), referring to
/// position `i`.
pub open spec fn method_handle_of(kind: u8, i: u16) -> MethodHandleConstant {
    if kind == 1 {
        MethodHandleConstant::GetField(FieldIndex(i))
    } else if kind == 2 {
        MethodHandleConstant::GetStatic(FieldIndex(i))
    } else if kind == 3 {
        MethodHandleConstant::PutField(FieldIndex(i))
    } else if kind == 4 {
        MethodHandleConstant::PutStatic(FieldIndex(i))
    } else if kind == 5 {
        MethodHandleConstant::InvokeVirtual(MethodIndex(i))
    } else if kind == 6 {
        MethodHandleConstant::NewInvokeSpecial(MethodIndex(i))
    } else if kind == 7 {
        MethodHandleConstant::InvokeSpecial(MethodOrInterfaceMethodIndex(i))
    } else if kind == 8 {
        MethodHandleConstant::InvokeStatic(MethodOrInterfaceMethodIndex(i))
    } else {
        MethodHandleConstant::InvokeInterface(InterfaceMethodIndex(i))
    }
}

/// Adds `k` consumed bytes to a successful decode.
pub open spec fn shift<V>(r: Result<(V, int), TryError>, k: int) -> Result<(V, int), TryError> {
    match r {
        Ok((v, n)) => Ok((v, n + k)),
        Err(e) => Err(e),
    }
}

/// The textual payload: a 16-bit length and that many bytes of UTF-8.
pub open spec fn spec_read_text(t: Seq<u8>) -> Result<(ConstantView, int), TryError> {
    if t.len() < 2 || t.len() - 2 < be16(t) {
        Err(TryError::NotEnoughBytes)
    } else {
        match utf8_text(t.subrange(2, 2 + be16(t))) {
            Some(c) => Ok((ConstantView::Text(c), 2 + be16(t))),
            None => Err(TryError::Malformed),
        }
    }
}

/// The method-handle payload: a sub-tag byte in 1 to 9 and one reference.
pub open spec fn spec_read_method_handle(t: Seq<u8>) -> Result<(ConstantView, int), TryError> {
    if t.len() < 1 {
        Err(TryError::NotEnoughBytes)
    } else if 1 <= t[0] <= 9 {
        shift(
            fixed_read(
                t.skip(1),
                2,
                ConstantView::MethodHandle(method_handle_of(t[0], be16(t.skip(1)) as u16)),
            ),
            1,
        )
    } else {
        Err(TryError::Malformed)
    }
}

/// What follows the tag byte `tag`, decoded from the front of `t`.
pub open spec fn spec_read_payload(tag: u8, t: Seq<u8>) -> Result<(ConstantView, int), TryError> {
    let a = be16(t) as u16;
    let b = be16(t.skip(2)) as u16;
    if tag == 1 {
        spec_read_text(t)
    } else if tag == 3 {
        fixed_read(t, 4, ConstantView::I32((be32(t) as u32) as i32))
    } else if tag == 4 {
        fixed_read(t, 4, ConstantView::F32(be32(t) as u32))
    } else if tag == 5 {
        fixed_read(t, 8, ConstantView::I64((be64(t) as u64) as i64))
    } else if tag == 6 {
        fixed_read(t, 8, ConstantView::F64(be64(t) as u64))
    } else if tag == 7 {
        fixed_read(t, 2, ConstantView::Class(ClassConstant { name: StringIndex(a) }))
    } else if tag == 8 {
        fixed_read(t, 2, ConstantView::StringRef(StringRefConstant { string: StringIndex(a) }))
    } else if tag == 9 {
        fixed_read(
            t,
            4,
            ConstantView::Field(
                FieldConstant { class: ClassIndex(a), name_and_type: NameAndTypeIndex(b) },
            ),
        )
    } else if tag == 10 {
        fixed_read(
            t,
            4,
            ConstantView::Method(
                MethodConstant { class: ClassIndex(a), name_and_type: NameAndTypeIndex(b) },
            ),
        )
    } else if tag == 11 {
        fixed_read(
            t,
            4,
            ConstantView::InterfaceMethod(
                InterfaceMethodConstant { class: ClassIndex(a), name_and_type: NameAndTypeIndex(b) },
            ),
        )
    } else if tag == 12 {
        fixed_read(
            t,
            4,
            ConstantView::NameAndType(
                NameAndTypeConstant { name: StringIndex(a), descriptor: StringIndex(b) },
            ),
        )
    } else if tag == 15 {
        spec_read_method_handle(t)
    } else if tag == 16 {
        fixed_read(t, 2, ConstantView::MethodType(MethodTypeConstant { descriptor: StringIndex(a) }))
    } else if tag == 18 {
        fixed_read(
            t,
            4,
            ConstantView::InvokeDynamic(
                InvokeDynamicConstant { bootstrap_method_attr: a, name_and_type: NameAndTypeIndex(b) },
            ),
        )
    } else {
        Err(TryError::Malformed)
    }
}

/// Reads two big-endian `u16`s.
fn read_u16_pair(buf: &mut Cursor) -> (r: Result<(u16, u16), TryError>)
    ensures
        old(buf)@.len() < 4 ==> r == Err::<(u16, u16), TryError>(TryError::NotEnoughBytes),
        old(buf)@.len() >= 4 ==> r == Ok::<(u16, u16), TryError>(
            (be16(old(buf)@) as u16, be16(old(buf)@.skip(2)) as u16),
        ) && final(buf)@ == old(buf)@.skip(4),
{
    if buf.remaining() < 4 {
        return Err(TryError::NotEnoughBytes);
    }
    let ghost s = buf@;
    let a = buf.read_u16();
    let b = buf.read_u16();
    proof {
        lemma_skip_skip(s, 2, 2);
    }
    match (a, b) {
        (Ok(a), Ok(b)) => Ok((a, b)),
        _ => Err(TryError::NotEnoughBytes),
    }
}

fn method_handle(kind: u8, i: u16) -> (r: MethodHandleConstant)
    ensures
        r == method_handle_of(kind, i),
{
    if kind == 1 {
        MethodHandleConstant::GetField(FieldIndex(i))
    } else if kind == 2 {
        MethodHandleConstant::GetStatic(FieldIndex(i))
    } else if kind == 3 {
        MethodHandleConstant::PutField(FieldIndex(i))
    } else if kind == 4 {
        MethodHandleConstant::PutStatic(FieldIndex(i))
    } else if kind == 5 {
        MethodHandleConstant::InvokeVirtual(MethodIndex(i))
    } else if kind == 6 {
        MethodHandleConstant::NewInvokeSpecial(MethodIndex(i))
    } else if kind == 7 {
        MethodHandleConstant::InvokeSpecial(MethodOrInterfaceMethodIndex(i))
    } else if kind == 8 {
        MethodHandleConstant::InvokeStatic(MethodOrInterfaceMethodIndex(i))
    } else {
        MethodHandleConstant::InvokeInterface(InterfaceMethodIndex(i))
    }
}

fn read_text(buf: &mut Cursor) -> (r: Result<Constant, TryError>)
    ensures
        read_outcome(spec_read_text(old(buf)@), old(buf)@, r, final(buf)@),
{
    let ghost t = buf@;
    let len = match buf.read_u16() {
        Ok(l) => l,
        Err(e) => return Err(e),
    };
    let bytes = match buf.read_bytes(len as usize) {
        Ok(b) => b,
        Err(e) => return Err(e),
    };
    proof {
        lemma_skip_skip(t, 2, len as int);
        assert(t.skip(2).take(len as int) =~= t.subrange(2, 2 + len));
    }
    match decode_utf8(bytes) {
        Some(text) => Ok(Constant::String(text)),
        None => Err(TryError::Malformed),
    }
}

fn read_method_handle(buf: &mut Cursor) -> (r: Result<Constant, TryError>)
    ensures
        read_outcome(spec_read_method_handle(old(buf)@), old(buf)@, r, final(buf)@),
{
    let ghost t = buf@;
    let kind = match buf.read_u8() {
        Ok(k) => k,
        Err(e) => return Err(e),
    };
    if kind < 1 || kind > 9 {
        return Err(TryError::Malformed);
    }
    match buf.read_u16() {
        Ok(i) => {
            proof {
                lemma_skip_skip(t, 1, 2);
            }
            Ok(Constant::MethodHandle(method_handle(kind, i)))
        },
        Err(e) => Err(e),
    }
}

fn read_payload(tag: u8, buf: &mut Cursor) -> (r: Result<Constant, TryError>)
    ensures
        read_outcome(spec_read_payload(tag, old(buf)@), old(buf)@, r, final(buf)@),
{
    if tag == 1 {
        read_text(buf)
    } else if tag == 3 {
        match buf.read_u32() {
            Ok(v) => Ok(Constant::I32(v as i32)),
            Err(e) => Err(e),
        }
    } else if tag == 4 {
        match buf.read_u32() {
            Ok(v) => Ok(Constant::F32(v)),
            Err(e) => Err(e),
        }
    } else if tag == 5 {
        match buf.read_u64() {
            Ok(v) => Ok(Constant::I64(v as i64)),
            Err(e) => Err(e),
        }
    } else if tag == 6 {
        match buf.read_u64() {
            Ok(v) => Ok(Constant::F64(v)),
            Err(e) => Err(e),
        }
    } else if tag == 7 {
        match buf.read_u16() {
            Ok(a) => Ok(Constant::Class(ClassConstant { name: StringIndex(a) })),
            Err(e) => Err(e),
        }
    } else if tag == 8 {
        match buf.read_u16() {
            Ok(a) => Ok(Constant::StringRef(StringRefConstant { string: StringIndex(a) })),
            Err(e) => Err(e),
        }
    } else if tag == 9 {
        match read_u16_pair(buf) {
            Ok((a, b)) => Ok(
                Constant::Field(
                    FieldConstant { class: ClassIndex(a), name_and_type: NameAndTypeIndex(b) },
                ),
            ),
            Err(e) => Err(e),
        }
    } else if tag == 10 {
        match read_u16_pair(buf) {
            Ok((a, b)) => Ok(
                Constant::Method(
                    MethodConstant { class: ClassIndex(a), name_and_type: NameAndTypeIndex(b) },
                ),
            ),
            Err(e) => Err(e),
        }
    } else if tag == 11 {
        match read_u16_pair(buf) {
            Ok((a, b)) => Ok(
                Constant::InterfaceMethod(
                    InterfaceMethodConstant {
                        class: ClassIndex(a),
                        name_and_type: NameAndTypeIndex(b),
                    },
                ),
            ),
            Err(e) => Err(e),
        }
    } else if tag == 12 {
        match read_u16_pair(buf) {
            Ok((a, b)) => Ok(
                Constant::NameAndType(
                    NameAndTypeConstant { name: StringIndex(a), descriptor: StringIndex(b) },
                ),
            ),
            Err(e) => Err(e),
        }
    } else if tag == 15 {
        read_method_handle(buf)
    } else if tag == 16 {
        match buf.read_u16() {
            Ok(a) => Ok(Constant::MethodType(MethodTypeConstant { descriptor: StringIndex(a) })),
            Err(e) => Err(e),
        }
    } else if tag == 18 {
        match read_u16_pair(buf) {
            Ok((a, b)) => Ok(
                Constant::InvokeDynamic(
                    InvokeDynamicConstant {
                        bootstrap_method_attr: a,
                        name_and_type: NameAndTypeIndex(b),
                    },
                ),
            ),
            Err(e) => Err(e),
        }
    } else {
        Err(TryError::Malformed)
    }
}

/// A constant is a tag byte followed by the payload that the tag selects;
/// an unknown tag is `Malformed`.
impl TryReadFrom for Constant {
    open spec fn spec_read(s: Seq<u8>) -> Result<(ConstantView, int), TryError> {
        if s.len() < 1 {
            Err(TryError::NotEnoughBytes)
        } else {
            shift(spec_read_payload(s[0], s.skip(1)), 1)
        }
    }

    fn try_read(buf: &mut Cursor) -> (r: Result<Constant, TryError>) {
        let ghost s = buf@;
        let tag = match buf.read_u8() {
            Ok(t) => t,
            Err(e) => return Err(e),
        };
        let r = read_payload(tag, buf);
        proof {
            match spec_read_payload(tag, s.skip(1)) {
                Ok((v, n)) => lemma_skip_skip(s, 1, n),
                Err(_) => {},
            }
        }
        r
    }
}

/// The tags that select a constant kind.
pub open spec fn known_tag(tag: u8) -> bool {
    tag == 1 || (3 <= tag <= 12) || tag == 15 || tag == 16 || tag == 18
}

/// Decoding a constant is `Malformed` for a tag outside the known set and
/// for a method handle whose sub-tag lies outside 1 to 9, and is
/// `NotEnoughBytes` for text whose declared length exceeds what follows.
pub proof fn lemma_constant_rejections(tag: u8, kind: u8, len: u16, body: Seq<u8>, rest: Seq<u8>)
    ensures
        !known_tag(tag) ==> Constant::spec_read(seq![tag] + rest) == Err::<
            (ConstantView, int),
            TryError,
        >(TryError::Malformed),
        !(1 <= kind <= 9) ==> Constant::spec_read(seq![15u8, kind] + rest) == Err::<
            (ConstantView, int),
            TryError,
        >(TryError::Malformed),
        body.len() < len ==> Constant::spec_read(seq![1u8] + enc16(len as int) + body) == Err::<
            (ConstantView, int),
            TryError,
        >(TryError::NotEnoughBytes),
{
    let a = seq![tag] + rest;
    assert(a[0] == tag);
    let b = seq![15u8, kind] + rest;
    assert(b[0] == 15u8);
    assert(b.skip(1)[0] == kind);
    let c = seq![1u8] + enc16(len as int) + body;
    assert(c[0] == 1u8);
    assert(c.skip(1) =~= enc16(len as int) + body);
    assert(be16(enc16(len as int) + body) == len);
}

/// Why a reference into the pool could not be followed.
#[derive(Debug, Clone, Copy, PartialEq, Eq, Structural)]
pub enum LookupError {
    /// The position lies past the last entry.
    Absent,
    /// The entry there is not of the kind the reference demands.
    WrongKind,
}

/// The constant pool: its on-wire count is one more than its number of
/// entries, which are addressed by 0-based position.
pub struct ConstantPool {
    entries: PrefixedVec<u16, Constant, OneOffset>,
}

impl View for ConstantPool {
    type V = Seq<ConstantView>;

    closed spec fn view(&self) -> Seq<ConstantView> {
        self.entries@
    }
}

impl TryReadFrom for ConstantPool {
    open spec fn spec_read(s: Seq<u8>) -> Result<(Seq<ConstantView>, int), TryError> {
        PrefixedVec::<u16, Constant, OneOffset>::spec_read(s)
    }

    fn try_read(buf: &mut Cursor) -> (r: Result<ConstantPool, TryError>) {
        match PrefixedVec::<u16, Constant, OneOffset>::try_read(buf) {
            Ok(entries) => Ok(ConstantPool { entries }),
            Err(e) => Err(e),
        }
    }
}

impl ConstantPool {
    /// A pool holding `entries`, which must number fewer than 65535.
    pub fn new(entries: Vec<Constant>) -> (r: Result<ConstantPool, TryError>)
        ensures
            entries@.len() < 0xffff ==> (r matches Ok(p) && p@ == entries@.map_values(|c: Constant| c@)),
            entries@.len() >= 0xffff ==> r == Err::<ConstantPool, TryError>(TryError::ValueTooLarge),
    {
        match PrefixedVec::new(entries) {
            Ok(entries) => Ok(ConstantPool { entries }),
            Err(e) => Err(e),
        }
    }

    /// The entries, in pool order.
    pub fn entries(&self) -> (r: &Vec<Constant>)
        ensures
            r@.map_values(|c: Constant| c@) == self@,
    {
        self.entries.items()
    }

    /// The number of entries.
    pub fn len(&self) -> (r: usize)
        ensures
            r == self@.len(),
    {
        self.entries.len()
    }

    /// The entry at `position`, of whatever kind.
    pub fn get(&self, position: u16) -> (r: Option<&Constant>)
        ensures
            position >= self@.len() ==> r is None,
            position < self@.len() ==> (r matches Some(c) && c@ == self@[position as int]),
    {
        let items = self.entries.items();
        let i = position as usize;
        if i >= items.len() {
            return None;
        }
        Some(&items[i])
    }

    /// The text at `index`, which must be a textual constant.
    pub fn string(&self, index: StringIndex) -> (r: Result<&String, LookupError>)
        ensures
            index.0 >= self@.len() ==> r == Err::<&String, LookupError>(LookupError::Absent),
            index.0 < self@.len() ==> match self@[index.0 as int] {
                ConstantView::Text(t) => r matches Ok(x) && x@ == t,
                _ => r == Err::<&String, LookupError>(LookupError::WrongKind),
            },
    {
        let items = self.entries.items();
        let i = index.0 as usize;
        if i >= items.len() {
            return Err(LookupError::Absent);
        }
        match &items[i] {
            Constant::String(t) => Ok(t),
            _ => Err(LookupError::WrongKind),
        }
    }

    /// The entry at `index`, which must be a class reference.
    pub fn class(&self, index: ClassIndex) -> (r: Result<&ClassConstant, LookupError>)
        ensures
            index.0 >= self@.len() ==> r == Err::<&ClassConstant, LookupError>(LookupError::Absent),
            index.0 < self@.len() ==> match self@[index.0 as int] {
                ConstantView::Class(c) => r == Ok::<&ClassConstant, LookupError>(&c),
                _ => r == Err::<&ClassConstant, LookupError>(LookupError::WrongKind),
            },
    {
        let items = self.entries.items();
        let i = index.0 as usize;
        if i >= items.len() {
            return Err(LookupError::Absent);
        }
        match &items[i] {
            Constant::Class(c) => Ok(c),
            _ => Err(LookupError::WrongKind),
        }
    }

    /// The entry at `index`, which must be a field reference.
    pub fn field(&self, index: FieldIndex) -> (r: Result<&FieldConstant, LookupError>)
        ensures
            index.0 >= self@.len() ==> r == Err::<&FieldConstant, LookupError>(LookupError::Absent),
            index.0 < self@.len() ==> match self@[index.0 as int] {
                ConstantView::Field(c) => r == Ok::<&FieldConstant, LookupError>(&c),
                _ => r == Err::<&FieldConstant, LookupError>(LookupError::WrongKind),
            },
    {
        let items = self.entries.items();
        let i = index.0 as usize;
        if i >= items.len() {
            return Err(LookupError::Absent);
        }
        match &items[i] {
            Constant::Field(c) => Ok(c),
            _ => Err(LookupError::WrongKind),
        }
    }

    /// The entry at `index`, which must be a name-and-type pair.
    pub fn name_and_type(&self, index: NameAndTypeIndex) -> (r: Result<&NameAndTypeConstant, LookupError>)
        ensures
            index.0 >= self@.len() ==> r == Err::<&NameAndTypeConstant, LookupError>(LookupError::Absent),
            index.0 < self@.len() ==> match self@[index.0 as int] {
                ConstantView::NameAndType(c) => r == Ok::<&NameAndTypeConstant, LookupError>(&c),
                _ => r == Err::<&NameAndTypeConstant, LookupError>(LookupError::WrongKind),
            },
    {
        let items = self.entries.items();
        let i = index.0 as usize;
        if i >= items.len() {
            return Err(LookupError::Absent);
        }
        match &items[i] {
            Constant::NameAndType(c) => Ok(c),
            _ => Err(LookupError::WrongKind),
        }
    }

    /// The entry at `index`, which must be a method reference.
    pub fn method(&self, index: MethodIndex) -> (r: Result<&MethodConstant, LookupError>)
        ensures
            index.0 >= self@.len() ==> r == Err::<&MethodConstant, LookupError>(LookupError::Absent),
            index.0 < self@.len() ==> match self@[index.0 as int] {
                ConstantView::Method(c) => r == Ok::<&MethodConstant, LookupError>(&c),
                _ => r == Err::<&MethodConstant, LookupError>(LookupError::WrongKind),
            },
    {
        let items = self.entries.items();
        let i = index.0 as usize;
        if i >= items.len() {
            return Err(LookupError::Absent);
        }
        match &items[i] {
            Constant::Method(c) => Ok(c),
            _ => Err(LookupError::WrongKind),
        }
    }

    /// The entry at `index`, which must be an interface-method reference.
    pub fn interface_method(&self, index: InterfaceMethodIndex) -> (r: Result<&InterfaceMethodConstant, LookupError>)
        ensures
            index.0 >= self@.len() ==> r == Err::<&InterfaceMethodConstant, LookupError>(LookupError::Absent),
            index.0 < self@.len() ==> match self@[index.0 as int] {
                ConstantView::InterfaceMethod(c) => r == Ok::<&InterfaceMethodConstant, LookupError>(&c),
                _ => r == Err::<&InterfaceMethodConstant, LookupError>(LookupError::WrongKind),
            },
    {
        let items = self.entries.items();
        let i = index.0 as usize;
        if i >= items.len() {
            return Err(LookupError::Absent);
        }
        match &items[i] {
            Constant::InterfaceMethod(c) => Ok(c),
            _ => Err(LookupError::WrongKind),
        }
    }

    /// The entry at `index`, which may be either a method reference or an
    /// interface-method reference.
    pub fn method_or_interface_method(&self, index: MethodOrInterfaceMethodIndex) -> (r: Result<
        &Constant,
        LookupError,
    >)
        ensures
            index.0 >= self@.len() ==> r == Err::<&Constant, LookupError>(LookupError::Absent),
            index.0 < self@.len() ==> match self@[index.0 as int] {
                ConstantView::Method(_) => r matches Ok(c) && c@ == self@[index.0 as int],
                ConstantView::InterfaceMethod(_) => r matches Ok(c) && c@ == self@[index.0 as int],
                _ => r == Err::<&Constant, LookupError>(LookupError::WrongKind),
            },
    {
        let items = self.entries.items();
        let i = index.0 as usize;
        if i >= items.len() {
            return Err(LookupError::Absent);
        }
        match &items[i] {
            Constant::Method(_) => Ok(&items[i]),
            Constant::InterfaceMethod(_) => Ok(&items[i]),
            _ => Err(LookupError::WrongKind),
        }
    }
}

} // verus!
