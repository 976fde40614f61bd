//! The class-file aggregate: header, constant pool, flags, references and
//! the interface, field, method and attribute tables.
use vstd::prelude::*;

use crate::codec::{be16, be32, fixed_read, lemma_skip_skip, Cursor, TryError, TryReadFrom};
use crate::constant_pool::{ConstantPool, ConstantView};
use crate::index::{ClassIndex, StringIndex};
use crate::prefixed::{PrefixedVec, ZeroOffset};

verus! {

/// The release that a major version number denotes.
#[derive(Debug, Clone, Copy, PartialEq, Eq, Structural)]
pub enum MajorVersion {
    JavaSE14,
    JavaSE13,
    JavaSE12,
    JavaSE11,
    JavaSE10,
    JavaSE9,
    JavaSE8,
    JavaSE7,
    JavaSE6_0,
    JavaSE5_0,
    JDK1_4,
    JDK1_3,
    JDK1_2,
    JDK1_1,
    /// A number with no named release.
    Other(u16),
}

/// The release named by major version `v`; numbers 45 to 58 are named and
/// every other number falls back to `Other(v)`.
pub open spec fn major_version_of(v: u16) -> MajorVersion {
    if v == 58 {
        MajorVersion::JavaSE14
    } else if v == 57 {
        MajorVersion::JavaSE13
    } else if v == 56 {
        MajorVersion::JavaSE12
    } else if v == 55 {
        MajorVersion::JavaSE11
    } else if v == 54 {
        MajorVersion::JavaSE10
    } else if v == 53 {
        MajorVersion::JavaSE9
    } else if v == 52 {
        MajorVersion::JavaSE8
    } else if v == 51 {
        MajorVersion::JavaSE7
    } else if v == 50 {
        MajorVersion::JavaSE6_0
    } else if v == 49 {
        MajorVersion::JavaSE5_0
    } else if v == 48 {
        MajorVersion::JDK1_4
    } else if v == 47 {
        MajorVersion::JDK1_3
    } else if v == 46 {
        MajorVersion::JDK1_2
    } else if v == 45 {
        MajorVersion::JDK1_1
    } else {
        MajorVersion::Other(v)
    }
}

impl View for MajorVersion {
    type V = MajorVersion;

    open spec fn view(&self) -> MajorVersion {
        *self
    }
}

impl MajorVersion {
    /// Maps a major version number to its release; never fails.
    pub fn from_u16(v: u16) -> (r: MajorVersion)
        ensures
            r == major_version_of(v),
    {
        match v {
            58 => MajorVersion::JavaSE14,
            57 => MajorVersion::JavaSE13,
            56 => MajorVersion::JavaSE12,
            55 => MajorVersion::JavaSE11,
            54 => MajorVersion::JavaSE10,
            53 => MajorVersion::JavaSE9,
            52 => MajorVersion::JavaSE8,
            51 => MajorVersion::JavaSE7,
            50 => MajorVersion::JavaSE6_0,
            49 => MajorVersion::JavaSE5_0,
            48 => MajorVersion::JDK1_4,
            47 => MajorVersion::JDK1_3,
            46 => MajorVersion::JDK1_2,
            45 => MajorVersion::JDK1_1,
            n => MajorVersion::Other(n),
        }
    }
}

impl TryReadFrom for MajorVersion {
    open spec fn spec_read(s: Seq<u8>) -> Result<(MajorVersion, int), TryError> {
        fixed_read(s, 2, major_version_of(be16(s) as u16))
    }

    fn try_read(buf: &mut Cursor) -> (r: Result<MajorVersion, TryError>) {
        match buf.read_u16() {
            Ok(v) => Ok(MajorVersion::from_u16(v)),
            Err(e) => Err(e),
        }
    }
}

/// Declared public.
pub const ACC_PUBLIC: u16 = 0x0001;
/// Declared private.
pub const ACC_PRIVATE: u16 = 0x0002;
/// Declared protected.
pub const ACC_PROTECTED: u16 = 0x0004;
/// Declared static.
pub const ACC_STATIC: u16 = 0x0008;
/// Declared final.
pub const ACC_FINAL: u16 = 0x0010;
/// Declared volatile.
pub const ACC_VOLATILE: u16 = 0x0040;
/// Declared transient.
pub const ACC_TRANSIENT: u16 = 0x0080;
/// Declared synthetic: not present in the source code.
pub const ACC_SYNTHETIC: u16 = 0x1000;
/// Declared as an element of an enum.
pub const ACC_ENUM: u16 = 0x4000;
/// Every known flag bit.
pub const ACC_ALL: u16 = 0x50df;

/// A set of access flags: the known bits of a 16-bit word.
#[derive(Debug, Clone, Copy, PartialEq, Eq, Structural)]
pub struct AccessFlags {
    bits: u16,
}

impl View for AccessFlags {
    type V = u16;

    closed spec fn view(&self) -> u16 {
        self.bits
    }
}

impl AccessFlags {
    #[verifier::type_invariant]
    spec fn inv(&self) -> bool {
        self.bits & ACC_ALL == self.bits
    }

    /// The known flags among `bits`; unknown bits are dropped.
    pub fn from_bits_truncate(bits: u16) -> (r: AccessFlags)
        ensures
            r@ == bits & ACC_ALL,
    {
        assert((bits & 0x50df) & 0x50df == bits & 0x50df) by (bit_vector);
        AccessFlags { bits: bits & ACC_ALL }
    }

    /// The flags as a word.
    pub fn bits(&self) -> (r: u16)
        ensures
            r == self@,
    {
        self.bits
    }

    /// Whether every bit of `flag` is set.
    pub fn contains(&self, flag: u16) -> (r: bool)
        ensures
            r == (self@ & flag == flag),
    {
        self.bits & flag == flag
    }
}

impl TryReadFrom for AccessFlags {
    open spec fn spec_read(s: Seq<u8>) -> Result<(u16, int), TryError> {
        fixed_read(s, 2, (be16(s) as u16) & ACC_ALL)
    }

    fn try_read(buf: &mut Cursor) -> (r: Result<AccessFlags, TryError>) {
        match buf.read_u16() {
            Ok(v) => Ok(AccessFlags::from_bits_truncate(v)),
            Err(e) => Err(e),
        }
    }
}

/// The attribute table that follows a class, field or method.
pub type AttributeTable = PrefixedVec<u16, AttributeInfo, ZeroOffset>;

/// A named, uninterpreted attribute body.
pub struct AttributeInfo {
    pub attribute_name_index: StringIndex,
    pub info: PrefixedVec<u32, u8, ZeroOffset>,
}

/// The value of an [`AttributeInfo`].
pub ghost struct AttributeInfoView {
    pub attribute_name_index: StringIndex,
    pub info: Seq<u8>,
}

impl View for AttributeInfo {
    type V = AttributeInfoView;

    open spec fn view(&self) -> AttributeInfoView {
        AttributeInfoView { attribute_name_index: self.attribute_name_index, info: self.info@ }
    }
}

/// An attribute: a 16-bit name index, a 32-bit length and that many bytes.
impl TryReadFrom for AttributeInfo {
    open spec fn spec_read(s: Seq<u8>) -> Result<(AttributeInfoView, int), TryError> {
        if s.len() < 2 {
            Err(TryError::NotEnoughBytes)
        } else {
            match PrefixedVec::<u32, u8, ZeroOffset>::spec_read(s.skip(2)) {
                Ok((info, n)) => Ok(
                    (
                        AttributeInfoView {
                            attribute_name_index: StringIndex(be16(s) as u16),
                            info,
                        },
                        2 + n,
                    ),
                ),
                Err(e) => Err(e),
            }
        }
    }

    fn try_read(buf: &mut Cursor) -> (r: Result<AttributeInfo, TryError>) {
        let ghost s = buf@;
        let attribute_name_index = match StringIndex::try_read(buf) {
            Ok(i) => i,
            Err(e) => return Err(e),
        };
        let info = match PrefixedVec::<u32, u8, ZeroOffset>::try_read(buf) {
            Ok(info) => info,
            Err(e) => return Err(e),
        };
        proof {
            let n = s.len() - 2 - buf@.len();
            lemma_skip_skip(s, 2, n);
        }
        Ok(AttributeInfo { attribute_name_index, info })
    }
}

/// The value of a [`FieldInfo`] or a [`MethodInfo`].
pub ghost struct MemberView {
    pub access_flags: u16,
    pub name_index: StringIndex,
    pub descriptor_index: StringIndex,
    pub attributes: Seq<AttributeInfoView>,
}

/// A field or method entry: three 16-bit words (flags, name, descriptor)
/// and an attribute table.
pub open spec fn spec_read_member(s: Seq<u8>) -> Result<(MemberView, int), TryError> {
    if s.len() < 6 {
        Err(TryError::NotEnoughBytes)
    } else {
        match AttributeTable::spec_read(s.skip(6)) {
            Ok((attributes, n)) => Ok(
                (
                    MemberView {
                        access_flags: be16(s) as u16,
                        name_index: StringIndex(be16(s.skip(2)) as u16),
                        descriptor_index: StringIndex(be16(s.skip(4)) as u16),
                        attributes,
                    },
                    6 + n,
                ),
            ),
            Err(e) => Err(e),
        }
    }
}

fn read_member_head(buf: &mut Cursor) -> (r: Result<(u16, StringIndex, StringIndex, AttributeTable), TryError>)
    ensures
        match spec_read_member(old(buf)@) {
            Ok((v, n)) => match r {
                Ok((f, a, b, t)) => f == v.access_flags && a == v.name_index && b == v.descriptor_index
                    && t@ == v.attributes && 0 <= n <= old(buf)@.len() && final(buf)@ == old(buf)@.skip(n),
                Err(_) => false,
            },
            Err(e) => r == Err::<(u16, StringIndex, StringIndex, AttributeTable), TryError>(e),
        },
{
    let ghost s = buf@;
    if buf.remaining() < 6 {
        return Err(TryError::NotEnoughBytes);
    }
    let f = buf.read_u16();
    let a = buf.read_u16();
    let b = buf.read_u16();
    proof {
        lemma_skip_skip(s, 2, 2);
        lemma_skip_skip(s, 4, 2);
    }
    let attributes = match AttributeTable::try_read(buf) {
        Ok(t) => t,
        Err(e) => return Err(e),
    };
    proof {
        lemma_skip_skip(s, 6, s.len() - 6 - buf@.len());
    }
    match (f, a, b) {
        (Ok(f), Ok(a), Ok(b)) => Ok((f, StringIndex(a), StringIndex(b), attributes)),
        _ => Err(TryError::NotEnoughBytes),
    }
}

/// A field of the class: raw access flags, name, descriptor and attributes.
pub struct FieldInfo {
    pub access_flags: u16,
    pub name_index: StringIndex,
    pub descriptor_index: StringIndex,
    pub attributes: PrefixedVec<u16, AttributeInfo, ZeroOffset>,
}

impl View for FieldInfo {
    type V = MemberView;

    open spec fn view(&self) -> MemberView {
        MemberView {
            access_flags: self.access_flags,
            name_index: self.name_index,
            descriptor_index: self.descriptor_index,
            attributes: self.attributes@,
        }
    }
}

impl TryReadFrom for FieldInfo {
    open spec fn spec_read(s: Seq<u8>) -> Result<(MemberView, int), TryError> {
        spec_read_member(s)
    }

    fn try_read(buf: &mut Cursor) -> (r: Result<FieldInfo, TryError>) {
        match read_member_head(buf) {
            Ok((access_flags, name_index, descriptor_index, attributes)) => Ok(
                FieldInfo { access_flags, name_index, descriptor_index, attributes },
            ),
            Err(e) => Err(e),
        }
    }
}

/// A method of the class: raw access flags, name, descriptor and attributes.
pub struct MethodInfo {
    pub access_flags: u16,
    pub name_index: StringIndex,
    pub descriptor_index: StringIndex,
    pub attributes: PrefixedVec<u16, AttributeInfo, ZeroOffset>,
}

impl View for MethodInfo {
    type V = MemberView;

    open spec fn view(&self) -> MemberView {
        MemberView {
            access_flags: self.access_flags,
            name_index: self.name_index,
            descriptor_index: self.descriptor_index,
            attributes: self.attributes@,
        }
    }
}

impl TryReadFrom for MethodInfo {
    open spec fn spec_read(s: Seq<u8>) -> Result<(MemberView, int), TryError> {
        spec_read_member(s)
    }

    fn try_read(buf: &mut Cursor) -> (r: Result<MethodInfo, TryError>) {
        match read_member_head(buf) {
            Ok((access_flags, name_index, descriptor_index, attributes)) => Ok(
                MethodInfo { access_flags, name_index, descriptor_index, attributes },
            ),
            Err(e) => Err(e),
        }
    }
}

/// A decoded class file. Pool references are kept as positions and are
/// checked only when looked up in the constant pool.
pub struct ClassFile {
    pub magic_number: u32,
    pub minor_version: u16,
    pub major_version: MajorVersion,
    pub constant_pool: ConstantPool,
    pub access_flags: AccessFlags,
    pub this_class: ClassIndex,
    pub super_class: ClassIndex,
    pub interfaces: PrefixedVec<u16, ClassIndex, ZeroOffset>,
    pub fields: PrefixedVec<u16, FieldInfo, ZeroOffset>,
    pub methods: PrefixedVec<u16, MethodInfo, ZeroOffset>,
    pub attributes: AttributeTable,
}

/// The value of a [`ClassFile`].
pub ghost struct ClassFileView {
    pub magic_number: u32,
    pub minor_version: u16,
    pub major_version: MajorVersion,
    pub constant_pool: Seq<ConstantView>,
    pub access_flags: u16,
    pub this_class: ClassIndex,
    pub super_class: ClassIndex,
    pub interfaces: Seq<ClassIndex>,
    pub fields: Seq<MemberView>,
    pub methods: Seq<MemberView>,
    pub attributes: Seq<AttributeInfoView>,
}

impl View for ClassFile {
    type V = ClassFileView;

    open spec fn view(&self) -> ClassFileView {
        ClassFileView {
            magic_number: self.magic_number,
            minor_version: self.minor_version,
            major_version: self.major_version,
            constant_pool: self.constant_pool@,
            access_flags: self.access_flags@,
            this_class: self.this_class,
            super_class: self.super_class,
            interfaces: self.interfaces@,
            fields: self.fields@,
            methods: self.methods@,
            attributes: self.attributes@,
        }
    }
}

/// The tables after the two class references, from the front of `s`:
/// interfaces, fields, methods and attributes, in that order.
pub open spec fn spec_read_tables(s: Seq<u8>) -> Result<
    (Seq<ClassIndex>, Seq<MemberView>, Seq<MemberView>, Seq<AttributeInfoView>, int),
    TryError,
> {
    match PrefixedVec::<u16, ClassIndex, ZeroOffset>::spec_read(s) {
        Err(e) => Err(e),
        Ok((interfaces, n1)) => match PrefixedVec::<u16, FieldInfo, ZeroOffset>::spec_read(
            s.skip(n1),
        ) {
            Err(e) => Err(e),
            Ok((fields, n2)) => match PrefixedVec::<u16, MethodInfo, ZeroOffset>::spec_read(
                s.skip(n1 + n2),
            ) {
                Err(e) => Err(e),
                Ok((methods, n3)) => match AttributeTable::spec_read(s.skip(n1 + n2 + n3)) {
                    Err(e) => Err(e),
                    Ok((attributes, n4)) => Ok(
                        (interfaces, fields, methods, attributes, n1 + n2 + n3 + n4),
                    ),
                },
            },
        },
    }
}

/// The whole layout: magic number, minor and major version, constant pool,
/// access flags, this and super class, then the four tables. The first
/// failing part decides the error.
impl TryReadFrom for ClassFile {
    open spec fn spec_read(s: Seq<u8>) -> Result<(ClassFileView, int), TryError> {
        if s.len() < 8 {
            Err(TryError::NotEnoughBytes)
        } else {
            match ConstantPool::spec_read(s.skip(8)) {
                Err(e) => Err(e),
                Ok((pool, n)) => {
                    let k = 8 + n;
                    if s.len() - k < 6 {
                        Err(TryError::NotEnoughBytes)
                    } else {
                        match spec_read_tables(s.skip(k + 6)) {
                            Err(e) => Err(e),
                            Ok((interfaces, fields, methods, attributes, m)) => Ok(
                                (
                                    ClassFileView {
                                        magic_number: be32(s) as u32,
                                        minor_version: be16(s.skip(4)) as u16,
                                        major_version: major_version_of(be16(s.skip(6)) as u16),
                                        constant_pool: pool,
                                        access_flags: (be16(s.skip(k)) as u16) & ACC_ALL,
                                        this_class: ClassIndex(be16(s.skip(k + 2)) as u16),
                                        super_class: ClassIndex(be16(s.skip(k + 4)) as u16),
                                        interfaces,
                                        fields,
                                        methods,
                                        attributes,
                                    },
                                    k + 6 + m,
                                ),
                            ),
                        }
                    }
                },
            }
        }
    }

    fn try_read(buf: &mut Cursor) -> (r: Result<ClassFile, TryError>) {
        let ghost s = buf@;
        if buf.remaining() < 8 {
            return Err(TryError::NotEnoughBytes);
        }
        let magic = buf.read_u32();
        let minor = buf.read_u16();
        let major = MajorVersion::try_read(buf);
        proof {
            lemma_skip_skip(s, 4, 2);
            lemma_skip_skip(s, 6, 2);
        }
        let (magic_number, minor_version, major_version) = match (magic, minor, major) {
            (Ok(a), Ok(b), Ok(c)) => (a, b, c),
            _ => return Err(TryError::NotEnoughBytes),
        };
        let constant_pool = match ConstantPool::try_read(buf) {
            Ok(p) => p,
            Err(e) => return Err(e),
        };
        let ghost k = s.len() - buf@.len();
        proof {
            lemma_skip_skip(s, 8, k - 8);
        }
        if buf.remaining() < 6 {
            return Err(TryError::NotEnoughBytes);
        }
        let flags = AccessFlags::try_read(buf);
        let this = ClassIndex::try_read(buf);
        let sup = ClassIndex::try_read(buf);
        proof {
            lemma_skip_skip(s, k, 2);
            lemma_skip_skip(s, k + 2, 2);
            lemma_skip_skip(s, k + 4, 2);
        }
        let (access_flags, this_class, super_class) = match (flags, this, sup) {
            (Ok(a), Ok(b), Ok(c)) => (a, b, c),
            _ => return Err(TryError::NotEnoughBytes),
        };
        let ghost t = buf@;
        let interfaces = match PrefixedVec::<u16, ClassIndex, ZeroOffset>::try_read(buf) {
            Ok(v) => v,
            Err(e) => return Err(e),
        };
        let ghost n1 = t.len() - buf@.len();
        let fields = match PrefixedVec::<u16, FieldInfo, ZeroOffset>::try_read(buf) {
            Ok(v) => v,
            Err(e) => {
                return Err(e);
            },
        };
        let ghost n2 = t.len() - n1 - buf@.len();
        proof {
            lemma_skip_skip(t, n1, n2);
        }
        let methods = match PrefixedVec::<u16, MethodInfo, ZeroOffset>::try_read(buf) {
            Ok(v) => v,
            Err(e) => return Err(e),
        };
        let ghost n3 = t.len() - n1 - n2 - buf@.len();
        proof {
            lemma_skip_skip(t, n1 + n2, n3);
        }
        let attributes = match AttributeTable::try_read(buf) {
            Ok(v) => v,
            Err(e) => return Err(e),
        };
        proof {
            let n4 = t.len() - n1 - n2 - n3 - buf@.len();
            lemma_skip_skip(t, n1 + n2 + n3, n4);
            lemma_skip_skip(s, k + 6, n1 + n2 + n3 + n4);
        }
        Ok(
            ClassFile {
                magic_number,
                minor_version,
                major_version,
                constant_pool,
                access_flags,
                this_class,
                super_class,
                interfaces,
                fields,
                methods,
                attributes,
            },
        )
    }
}

/// Decodes a class file from the front of `data`.
pub fn parse(data: Vec<u8>) -> (r: Result<ClassFile, TryError>)
    ensures
        match ClassFile::spec_read(data@) {
            Ok((v, _)) => r matches Ok(c) && c@ == v,
            Err(e) => r == Err::<ClassFile, TryError>(e),
        },
{
    let mut cursor = Cursor::new(data);
    ClassFile::try_read(&mut cursor)
}

} // verus!
