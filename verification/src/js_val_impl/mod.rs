//! Decoding: from a reply buffer to the one value that it holds.

use crate::byte_order::{
    le_value_u16, le_value_u32, read_i16_le, read_i32_le, read_u16_le, read_u32_le, signed_16,
    signed_32, signed_8,
};
use crate::js_ser::{
    wire_bool, wire_i16, wire_i32, wire_i8, wire_text, wire_u16, wire_u32, wire_u8,
    JsSerializable,
};
use crate::ser_constants::TypeTag;
use crate::wasm_ffi::{HostCall, SINGLE_VAL_VEC_LEN};
use crate::{consistent, ArrayType, JsValue, JsValueView, Type, Val};
use vstd::prelude::*;
use vstd::slice::slice_subrange;

pub mod call;

verus! {

/// The declared type of a value that arrives under `tag`.
pub open spec fn tag_type(tag: TypeTag) -> Type {
    match tag {
        TypeTag::Empty => Type::Empty,
        TypeTag::BoolFalse | TypeTag::BoolTrue => Type::Boolean,
        TypeTag::Int8
        | TypeTag::UInt8
        | TypeTag::Int16
        | TypeTag::UInt16
        | TypeTag::Int32
        | TypeTag::UInt32 => Type::Number,
        TypeTag::String => Type::String,
        TypeTag::Array => Type::Array,
        TypeTag::Int8Array => Type::TypedArray(ArrayType::I8),
        TypeTag::UInt8Array => Type::TypedArray(ArrayType::U8),
        TypeTag::Int16Array => Type::TypedArray(ArrayType::I16),
        TypeTag::UInt16Array => Type::TypedArray(ArrayType::U16),
        TypeTag::Int32Array => Type::TypedArray(ArrayType::I32),
        TypeTag::UInt32Array => Type::TypedArray(ArrayType::U32),
        TypeTag::Float32Array => Type::TypedArray(ArrayType::F32),
        TypeTag::Float64Array => Type::TypedArray(ArrayType::F64),
        TypeTag::Object => Type::Object,
        TypeTag::Function => Type::Function,
        TypeTag::Error => Type::Error,
    }
}

/// What a payload under `tag` holds. A boolean has no payload, a number has
/// its bytes, a text its length and then its address, and everything else the
/// handle by which the host knows it.
pub open spec fn payload_val(tag: TypeTag, payload: Seq<u8>) -> Val {
    match tag {
        TypeTag::Empty => Val::Nothing,
        TypeTag::BoolFalse => Val::Boolean(false),
        TypeTag::BoolTrue => Val::Boolean(true),
        TypeTag::Int8 => Val::Number(signed_8(payload[0]) as i64),
        TypeTag::UInt8 => Val::Number(payload[0] as i64),
        TypeTag::Int16 => Val::Number(signed_16(le_value_u16(payload)) as i64),
        TypeTag::UInt16 => Val::Number(le_value_u16(payload) as i64),
        TypeTag::Int32 => Val::Number(signed_32(le_value_u32(payload)) as i64),
        TypeTag::UInt32 => Val::Number(le_value_u32(payload) as i64),
        TypeTag::String => Val::String {
            len: le_value_u32(payload),
            addr: le_value_u32(payload.skip(4)),
        },
        _ => Val::Ref(le_value_u32(payload)),
    }
}

/// Whether `bytes` is a reply buffer: of the one fixed length, and opened by
/// a tag of the protocol.
pub open spec fn is_single_val(bytes: Seq<u8>) -> bool {
    bytes.len() == SINGLE_VAL_VEC_LEN && TypeTag::of_code(bytes[0]) is Some
}

/// The value in the reply buffer `bytes`. Bytes behind the payload are
/// padding and mean nothing.
pub open spec fn single_val(bytes: Seq<u8>) -> JsValueView
    recommends
        is_single_val(bytes),
{
    let tag = TypeTag::of_code(bytes[0]).unwrap();
    JsValueView { js_type: tag_type(tag), val: payload_val(tag, bytes.skip(1)) }
}

/// Whether the reply buffer `reply` opens with the bytes `wire`.
pub open spec fn carries(reply: Seq<u8>, wire: Seq<u8>) -> bool {
    &&& reply.len() == SINGLE_VAL_VEC_LEN
    &&& wire.len() <= reply.len()
    &&& reply.subrange(0, wire.len() as int) == wire
}

/// The boolean `b` as a value of the host.
pub open spec fn boolean_view(b: bool) -> JsValueView {
    JsValueView { js_type: Type::Boolean, val: Val::Boolean(b) }
}

/// The integer `n` as a value of the host.
pub open spec fn number_view(n: int) -> JsValueView {
    JsValueView { js_type: Type::Number, val: Val::Number(n as i64) }
}

/// A boolean comes back from its wire form as the boolean it was.
pub proof fn lemma_bool_round_trip(b: bool, reply: Seq<u8>)
    requires
        carries(reply, wire_bool(b)),
    ensures
        is_single_val(reply),
        single_val(reply) == boolean_view(b),
{
    assert(reply[0] == wire_bool(b)[0]);
}

/// A signed byte comes back from its wire form as the number it was.
pub proof fn lemma_i8_round_trip(n: i8, reply: Seq<u8>)
    requires
        carries(reply, wire_i8(n)),
    ensures
        is_single_val(reply),
        single_val(reply) == number_view(n as int),
{
    let wire = wire_i8(n);
    assert forall|i: int| 0 <= i < wire.len() implies reply[i] == wire[i] by {
        assert(reply.subrange(0, wire.len() as int)[i] == wire[i]);
    }
}

/// An unsigned byte comes back from its wire form as the number it was.
pub proof fn lemma_u8_round_trip(n: u8, reply: Seq<u8>)
    requires
        carries(reply, wire_u8(n)),
    ensures
        is_single_val(reply),
        single_val(reply) == number_view(n as int),
{
    let wire = wire_u8(n);
    assert forall|i: int| 0 <= i < wire.len() implies reply[i] == wire[i] by {
        assert(reply.subrange(0, wire.len() as int)[i] == wire[i]);
    }
}

/// A signed 16-bit number comes back from its wire form as the number it was.
pub proof fn lemma_i16_round_trip(n: i16, reply: Seq<u8>)
    requires
        carries(reply, wire_i16(n)),
    ensures
        is_single_val(reply),
        single_val(reply) == number_view(n as int),
{
    let wire = wire_i16(n);
    assert forall|i: int| 0 <= i < wire.len() implies reply[i] == wire[i] by {
        assert(reply.subrange(0, wire.len() as int)[i] == wire[i]);
    }
}

/// An unsigned 16-bit number comes back from its wire form as the number it
/// was.
pub proof fn lemma_u16_round_trip(n: u16, reply: Seq<u8>)
    requires
        carries(reply, wire_u16(n)),
    ensures
        is_single_val(reply),
        single_val(reply) == number_view(n as int),
{
    let wire = wire_u16(n);
    assert forall|i: int| 0 <= i < wire.len() implies reply[i] == wire[i] by {
        assert(reply.subrange(0, wire.len() as int)[i] == wire[i]);
    }
}

/// A signed 32-bit number comes back from its wire form as the number it was.
pub proof fn lemma_i32_round_trip(n: i32, reply: Seq<u8>)
    requires
        carries(reply, wire_i32(n)),
    ensures
        is_single_val(reply),
        single_val(reply) == number_view(n as int),
{
    let wire = wire_i32(n);
    assert forall|i: int| 0 <= i < wire.len() implies reply[i] == wire[i] by {
        assert(reply.subrange(0, wire.len() as int)[i] == wire[i]);
    }
}

/// An unsigned 32-bit number comes back from its wire form as the number it
/// was.
pub proof fn lemma_u32_round_trip(n: u32, reply: Seq<u8>)
    requires
        carries(reply, wire_u32(n)),
    ensures
        is_single_val(reply),
        single_val(reply) == number_view(n as int),
{
    let wire = wire_u32(n);
    assert forall|i: int| 0 <= i < wire.len() implies reply[i] == wire[i] by {
        assert(reply.subrange(0, wire.len() as int)[i] == wire[i]);
    }
}

/// A text comes back from its wire form as the same length at the same
/// address.
pub proof fn lemma_text_round_trip(len: u32, addr: u32, reply: Seq<u8>)
    requires
        carries(reply, wire_text(len, addr)),
    ensures
        is_single_val(reply),
        single_val(reply) == (JsValueView { js_type: Type::String, val: Val::String { len, addr } }),
{
    let wire = wire_text(len, addr);
    assert forall|i: int| 0 <= i < wire.len() implies reply[i] == wire[i] by {
        assert(reply.subrange(0, wire.len() as int)[i] == wire[i]);
    }
}

/// Whatever a reply buffer holds, its declared type and its representation
/// agree.
pub proof fn lemma_single_val_consistent(bytes: Seq<u8>)
    requires
        is_single_val(bytes),
    ensures
        consistent(single_val(bytes).js_type, single_val(bytes).val),
{
}

impl JsValue {
    /// Fetches a named value from the host's global scope.
    pub fn get_global<'a>(name: &'a str) -> (request: HostCall<'a>)
        ensures
            request == (HostCall::GetGlobal { name }),
    {
        HostCall::GetGlobal { name }
    }

    /// Sets a named member of the value, if the host holds the value by
    /// reference.
    pub fn set_val<'a, S>(&self, name: &'a str, val: S) -> (request: Option<HostCall<'a>>) where
        S: JsSerializable,

        ensures
            self@.ref_id() is None ==> request is None,
            self@.ref_id() matches Some(id) ==> {
                &&& request matches Some(HostCall::SetVal { ref_id, name: member, arg: encoded })
                &&& ref_id == id
                &&& member == name
                &&& val.is_wire_form(encoded@)
            },
    {
        match self.ref_id() {
            Some(ref_id) => {
                let mut cursor: Vec<u8> = Vec::with_capacity(val.size() as usize);
                val.ser(&mut cursor);
                assert(cursor@.subrange(0, cursor@.len() as int) == cursor@);
                Some(HostCall::SetVal { ref_id, name, arg: cursor })
            },
            None => None,
        }
    }

    /// Decodes a buffer if it is a reply buffer, and says so if it is not.
    pub fn decode_single_val(bytes: &[u8]) -> (decoded: Option<JsValue>)
        ensures
            decoded is Some <==> is_single_val(bytes@),
            decoded matches Some(v) ==> v@ == single_val(bytes@) && v.wf(),
    {
        if bytes.len() != SINGLE_VAL_VEC_LEN {
            return None;
        }
        let payload = slice_subrange(bytes, 1, SINGLE_VAL_VEC_LEN);
        assert(payload@ == bytes@.skip(1));
        let tag = match TypeTag::from_u8(bytes[0]) {
            Some(tag) => tag,
            None => {
                return None;
            },
        };
        let value = match tag {
            TypeTag::Empty => JsValue { js_type: Type::Empty, val: Val::Nothing },
            TypeTag::BoolFalse => JsValue { js_type: Type::Boolean, val: Val::Boolean(false) },
            TypeTag::BoolTrue => JsValue { js_type: Type::Boolean, val: Val::Boolean(true) },
            TypeTag::Int8 => {
                let byte: u8 = payload[0];
                let n: i64 = if byte < 0x80 {
                    byte as i64
                } else {
                    byte as i64 - 0x100
                };
                JsValue { js_type: Type::Number, val: Val::Number(n) }
            },
            TypeTag::UInt8 => JsValue { js_type: Type::Number, val: Val::Number(payload[0] as i64) },
            TypeTag::Int16 => JsValue {
                js_type: Type::Number,
                val: Val::Number(read_i16_le(payload) as i64),
            },
            TypeTag::UInt16 => JsValue {
                js_type: Type::Number,
                val: Val::Number(read_u16_le(payload) as i64),
            },
            TypeTag::Int32 => JsValue {
                js_type: Type::Number,
                val: Val::Number(read_i32_le(payload) as i64),
            },
            TypeTag::UInt32 => JsValue {
                js_type: Type::Number,
                val: Val::Number(read_u32_le(payload) as i64),
            },
            TypeTag::String => {
                let len: u32 = read_u32_le(payload);
                let rest = slice_subrange(payload, 4, 8);
                let addr: u32 = read_u32_le(rest);
                assert(le_value_u32(rest@) == le_value_u32(payload@.skip(4)));
                JsValue { js_type: Type::String, val: Val::String { len, addr } }
            },
            TypeTag::Array => JsValue { js_type: Type::Array, val: Val::Ref(read_u32_le(payload)) },
            TypeTag::Int8Array => JsValue {
                js_type: Type::TypedArray(ArrayType::I8),
                val: Val::Ref(read_u32_le(payload)),
            },
            TypeTag::UInt8Array => JsValue {
                js_type: Type::TypedArray(ArrayType::U8),
                val: Val::Ref(read_u32_le(payload)),
            },
            TypeTag::Int16Array => JsValue {
                js_type: Type::TypedArray(ArrayType::I16),
                val: Val::Ref(read_u32_le(payload)),
            },
            TypeTag::UInt16Array => JsValue {
                js_type: Type::TypedArray(ArrayType::U16),
                val: Val::Ref(read_u32_le(payload)),
            },
            TypeTag::Int32Array => JsValue {
                js_type: Type::TypedArray(ArrayType::I32),
                val: Val::Ref(read_u32_le(payload)),
            },
            TypeTag::UInt32Array => JsValue {
                js_type: Type::TypedArray(ArrayType::U32),
                val: Val::Ref(read_u32_le(payload)),
            },
            TypeTag::Float32Array => JsValue {
                js_type: Type::TypedArray(ArrayType::F32),
                val: Val::Ref(read_u32_le(payload)),
            },
            TypeTag::Float64Array => JsValue {
                js_type: Type::TypedArray(ArrayType::F64),
                val: Val::Ref(read_u32_le(payload)),
            },
            TypeTag::Object => JsValue { js_type: Type::Object, val: Val::Ref(read_u32_le(payload)) },
            TypeTag::Function => JsValue {
                js_type: Type::Function,
                val: Val::Ref(read_u32_le(payload)),
            },
            TypeTag::Error => JsValue { js_type: Type::Error, val: Val::Ref(read_u32_le(payload)) },
        };
        Some(value)
    }

    /// Decodes a reply buffer into the one value that it holds, and takes
    /// the buffer with it.
    pub fn get_single_val(vec: Vec<u8>) -> (value: JsValue)
        requires
            is_single_val(vec@),
        ensures
            value@ == single_val(vec@),
            value.wf(),
    {
        match JsValue::decode_single_val(vec.as_slice()) {
            Some(value) => value,
            None => vstd::pervasive::unreached(),
        }
    }
}

} // verus!
