//! Decoder for the JVM class-file container format.
//!
//! Bytes are read through a forward-only [`Cursor`]; every decodable type
//! implements [`TryReadFrom`], whose contract ties the executable decoder to
//! a model of the byte layout. Pool references are decoded as typed
//! positions and checked only when looked up in the [`ConstantPool`].
use vstd::prelude::*;

pub mod class;
pub mod codec;
pub mod constant_pool;
pub mod index;
pub mod prefixed;
pub mod resolved;

pub use class::{
    parse, AccessFlags, AttributeInfo, AttributeTable, ClassFile, FieldInfo, MajorVersion, MethodInfo,
};
pub use codec::{Cursor, TryError, TryReadFrom, TryReadInto, WriteFrom, WriteInto};
pub use constant_pool::{
    ClassConstant, Constant, ConstantPool, FieldConstant, InterfaceMethodConstant,
    InvokeDynamicConstant, LookupError, MethodConstant, MethodHandleConstant, MethodTypeConstant,
    NameAndTypeConstant, StringRefConstant,
};
pub use index::{
    ClassIndex, FieldIndex, InterfaceMethodIndex, MethodIndex, MethodOrInterfaceMethodIndex,
    NameAndTypeIndex, StringIndex,
};
pub use prefixed::{CountPrefix, Offset, OneOffset, PrefixedVec, ZeroOffset};

verus! {

} // verus!
