//! The protocol's table of type tags: one byte in front of every value on the wire.

use vstd::prelude::*;

verus! {

/// What a value on the wire is, as told by its first byte.
#[derive(Clone, Copy, Debug, PartialEq, Eq, Structural)]
pub enum TypeTag {
    Empty,
    BoolFalse,
    BoolTrue,
    Int8,
    UInt8,
    Int16,
    UInt16,
    Int32,
    UInt32,
    String,
    Array,
    Int8Array,
    UInt8Array,
    Int16Array,
    UInt16Array,
    Int32Array,
    UInt32Array,
    Float32Array,
    Float64Array,
    Object,
    Function,
    Error,
}

impl TypeTag {
    /// The byte that stands for this tag on the wire.
    pub open spec fn code(self) -> u8 {
        match self {
            TypeTag::Empty => 0,
            TypeTag::BoolFalse => 1,
            TypeTag::BoolTrue => 2,
            TypeTag::Int8 => 3,
            TypeTag::UInt8 => 4,
            TypeTag::Int16 => 5,
            TypeTag::UInt16 => 6,
            TypeTag::Int32 => 7,
            TypeTag::UInt32 => 8,
            TypeTag::String => 9,
            TypeTag::Array => 10,
            TypeTag::Int8Array => 11,
            TypeTag::UInt8Array => 12,
            TypeTag::Int16Array => 13,
            TypeTag::UInt16Array => 14,
            TypeTag::Int32Array => 15,
            TypeTag::UInt32Array => 16,
            TypeTag::Float32Array => 17,
            TypeTag::Float64Array => 18,
            TypeTag::Object => 19,
            TypeTag::Function => 20,
            TypeTag::Error => 21,
        }
    }

    /// The tag that a byte stands for, if it stands for one.
    pub open spec fn of_code(b: u8) -> Option<TypeTag> {
        match b {
            0 => Some(TypeTag::Empty),
            1 => Some(TypeTag::BoolFalse),
            2 => Some(TypeTag::BoolTrue),
            3 => Some(TypeTag::Int8),
            4 => Some(TypeTag::UInt8),
            5 => Some(TypeTag::Int16),
            6 => Some(TypeTag::UInt16),
            7 => Some(TypeTag::Int32),
            8 => Some(TypeTag::UInt32),
            9 => Some(TypeTag::String),
            10 => Some(TypeTag::Array),
            11 => Some(TypeTag::Int8Array),
            12 => Some(TypeTag::UInt8Array),
            13 => Some(TypeTag::Int16Array),
            14 => Some(TypeTag::UInt16Array),
            15 => Some(TypeTag::Int32Array),
            16 => Some(TypeTag::UInt32Array),
            17 => Some(TypeTag::Float32Array),
            18 => Some(TypeTag::Float64Array),
            19 => Some(TypeTag::Object),
            20 => Some(TypeTag::Function),
            21 => Some(TypeTag::Error),
            _ => None,
        }
    }

    /// The tag's byte.
    pub fn to_u8(self) -> (b: u8)
        ensures
            b == self.code(),
    {
        match self {
            TypeTag::Empty => 0,
            TypeTag::BoolFalse => 1,
            TypeTag::BoolTrue => 2,
            TypeTag::Int8 => 3,
            TypeTag::UInt8 => 4,
            TypeTag::Int16 => 5,
            TypeTag::UInt16 => 6,
            TypeTag::Int32 => 7,
            TypeTag::UInt32 => 8,
            TypeTag::String => 9,
            TypeTag::Array => 10,
            TypeTag::Int8Array => 11,
            TypeTag::UInt8Array => 12,
            TypeTag::Int16Array => 13,
            TypeTag::UInt16Array => 14,
            TypeTag::Int32Array => 15,
            TypeTag::UInt32Array => 16,
            TypeTag::Float32Array => 17,
            TypeTag::Float64Array => 18,
            TypeTag::Object => 19,
            TypeTag::Function => 20,
            TypeTag::Error => 21,
        }
    }

    /// Reads a tag from its byte; `None` for a byte that is no tag.
    pub fn from_u8(b: u8) -> (tag: Option<TypeTag>)
        ensures
            tag == TypeTag::of_code(b),
    {
        match b {
            0 => Some(TypeTag::Empty),
            1 => Some(TypeTag::BoolFalse),
            2 => Some(TypeTag::BoolTrue),
            3 => Some(TypeTag::Int8),
            4 => Some(TypeTag::UInt8),
            5 => Some(TypeTag::Int16),
            6 => Some(TypeTag::UInt16),
            7 => Some(TypeTag::Int32),
            8 => Some(TypeTag::UInt32),
            9 => Some(TypeTag::String),
            10 => Some(TypeTag::Array),
            11 => Some(TypeTag::Int8Array),
            12 => Some(TypeTag::UInt8Array),
            13 => Some(TypeTag::Int16Array),
            14 => Some(TypeTag::UInt16Array),
            15 => Some(TypeTag::Int32Array),
            16 => Some(TypeTag::UInt32Array),
            17 => Some(TypeTag::Float32Array),
            18 => Some(TypeTag::Float64Array),
            19 => Some(TypeTag::Object),
            20 => Some(TypeTag::Function),
            21 => Some(TypeTag::Error),
            _ => None,
        }
    }

    /// Every tag is read back from its own byte.
    pub proof fn lemma_of_code_inverts_code(self)
        ensures
            TypeTag::of_code(self.code()) == Some(self),
    {
    }

    /// A byte stands for at most one tag, and that tag's byte is the byte itself.
    pub proof fn lemma_code_inverts_of_code(b: u8)
        ensures
            TypeTag::of_code(b) matches Some(tag) ==> tag.code() == b,
            TypeTag::of_code(b) is Some <==> b <= 21,
    {
    }
}

} // verus!
