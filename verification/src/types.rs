//! The tag mapping from supported vertex-element types to the native
//! symbolic type codes, and the per-element byte sizes used to turn
//! element counts into byte counts.

use vstd::prelude::*;

verus! {

/// The closed set of element types a vertex attribute may be built from.
///
/// Each tag stands for one fixed-size numeric type; any other type is
/// rejected at compile time simply because no tag exists for it.
#[derive(Clone, Copy, PartialEq, Eq, Debug)]
pub enum ElemType {
    /// 32-bit floating point.
    F32,
    /// 64-bit floating point.
    F64,
    /// 32-bit signed integer.
    I32,
    /// 32-bit unsigned integer.
    U32,
    /// 16-bit signed integer.
    I16,
    /// 16-bit unsigned integer.
    U16,
    /// 8-bit signed integer.
    I8,
    /// 8-bit unsigned integer.
    U8,
}

impl ElemType {
    /// The native symbolic type code of this element type, as the
    /// graphics API documents it (FLOAT, DOUBLE, INT, ...).
    pub open spec fn spec_gl_code(self) -> u32 {
        match self {
            ElemType::F32 => 0x1406,
            ElemType::F64 => 0x140A,
            ElemType::I32 => 0x1404,
            ElemType::U32 => 0x1405,
            ElemType::I16 => 0x1402,
            ElemType::U16 => 0x1403,
            ElemType::I8 => 0x1400,
            ElemType::U8 => 0x1401,
        }
    }

    /// Resolves the tag to the native type code.
    pub fn gl_code(self) -> (code: u32)
        ensures
            code == self.spec_gl_code(),
    {
        match self {
            ElemType::F32 => 0x1406,
            ElemType::F64 => 0x140A,
            ElemType::I32 => 0x1404,
            ElemType::U32 => 0x1405,
            ElemType::I16 => 0x1402,
            ElemType::U16 => 0x1403,
            ElemType::I8 => 0x1400,
            ElemType::U8 => 0x1401,
        }
    }

    /// The size in bytes of one element of this type.
    pub open spec fn spec_size_bytes(self) -> usize {
        match self {
            ElemType::F32 => 4,
            ElemType::F64 => 8,
            ElemType::I32 => 4,
            ElemType::U32 => 4,
            ElemType::I16 => 2,
            ElemType::U16 => 2,
            ElemType::I8 => 1,
            ElemType::U8 => 1,
        }
    }

    /// Returns the size in bytes of one element of this type.
    pub fn size_bytes(self) -> (n: usize)
        ensures
            n == self.spec_size_bytes(),
            1 <= n <= 8,
    {
        match self {
            ElemType::F32 => 4,
            ElemType::F64 => 8,
            ElemType::I32 => 4,
            ElemType::U32 => 4,
            ElemType::I16 => 2,
            ElemType::U16 => 2,
            ElemType::I8 => 1,
            ElemType::U8 => 1,
        }
    }
}

/// Ties a Rust numeric type to its element-type tag, so that generic
/// code (such as a buffer upload) can recover the native type code and
/// byte size of its elements. Only the types listed here are supported;
/// anything else fails to type-check before any native call is reached.
pub trait GLType {
    /// The tag this Rust type maps to.
    spec fn spec_elem() -> ElemType;

    /// Returns the tag this Rust type maps to.
    fn elem() -> (e: ElemType)
        ensures
            e == Self::spec_elem(),
    ;

    /// Returns the native symbolic type code for this Rust type.
    fn gl_type() -> (code: u32)
        ensures
            code == Self::spec_elem().spec_gl_code(),
    ;
}

impl GLType for i32 {
    open spec fn spec_elem() -> ElemType {
        ElemType::I32
    }

    fn elem() -> ElemType {
        ElemType::I32
    }

    fn gl_type() -> u32 {
        0x1404
    }
}

impl GLType for u32 {
    open spec fn spec_elem() -> ElemType {
        ElemType::U32
    }

    fn elem() -> ElemType {
        ElemType::U32
    }

    fn gl_type() -> u32 {
        0x1405
    }
}

impl GLType for i16 {
    open spec fn spec_elem() -> ElemType {
        ElemType::I16
    }

    fn elem() -> ElemType {
        ElemType::I16
    }

    fn gl_type() -> u32 {
        0x1402
    }
}

impl GLType for u16 {
    open spec fn spec_elem() -> ElemType {
        ElemType::U16
    }

    fn elem() -> ElemType {
        ElemType::U16
    }

    fn gl_type() -> u32 {
        0x1403
    }
}

impl GLType for i8 {
    open spec fn spec_elem() -> ElemType {
        ElemType::I8
    }

    fn elem() -> ElemType {
        ElemType::I8
    }

    fn gl_type() -> u32 {
        0x1400
    }
}

impl GLType for u8 {
    open spec fn spec_elem() -> ElemType {
        ElemType::U8
    }

    fn elem() -> ElemType {
        ElemType::U8
    }

    fn gl_type() -> u32 {
        0x1401
    }
}

} // verus!
