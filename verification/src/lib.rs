//! Typed values, a compact wire encoding and a callback registry for a module
//! that runs in linear memory and talks to a dynamically typed host.

use vstd::prelude::*;

pub mod byte_order;
pub mod callbacks;
pub mod js_ser;
pub mod js_val_impl;
pub mod rust_exports;
pub mod ser_constants;
pub mod wasm_ffi;

pub use callbacks::CallbackRegistry;
pub use js_ser::JsSerializable;
pub use ser_constants::TypeTag;
pub use wasm_ffi::HostCall;

verus! {

/// A value of the host, as the module sees it: what the host says it is, and
/// how the module holds it.
#[derive(Debug, PartialEq, Eq)]
pub struct JsValue {
    pub js_type: Type,
    val: Val,
}

/// What the host declares a value to be.
#[derive(Clone, Copy, Debug, PartialEq, Eq, Structural)]
pub enum Type {
    Empty,
    Boolean,
    Number,
    String,
    Array,
    TypedArray(ArrayType),
    Object,
    Function,
    Error,
}

/// The element kind of a typed array.
#[derive(Clone, Copy, Debug, PartialEq, Eq, Structural)]
pub enum ArrayType {
    I8,
    U8,
    I16,
    U16,
    I32,
    U32,
    F32,
    F64,
}

/// How the module holds a value.
///
/// A number is held as the integer it is: the wire carries integers of at
/// most 32 bits, each of which a double holds exactly. A text is held as the
/// wire carries it, by the place of its bytes in the module's memory. A
/// reference is a handle into the host's table of objects, which the module
/// only ever hands back.
#[derive(Clone, Copy, Debug, PartialEq, Eq, Structural)]
pub enum Val {
    Nothing,
    Boolean(bool),
    Number(i64),
    String { len: u32, addr: u32 },
    Ref(u32),
}

/// Whether a value of the declared type `js_type` may be held as `val`.
pub open spec fn consistent(js_type: Type, val: Val) -> bool {
    match js_type {
        Type::Empty => val is Nothing,
        Type::Boolean => val is Boolean,
        Type::Number => val is Number,
        Type::String => val is String,
        Type::Array | Type::TypedArray(_) | Type::Object | Type::Function | Type::Error => val is Ref,
    }
}

/// A value as contracts speak of it: the declared type, and the
/// representation, which the value itself keeps to the crate.
pub struct JsValueView {
    pub js_type: Type,
    pub val: Val,
}

impl View for JsValue {
    type V = JsValueView;

    closed spec fn view(&self) -> JsValueView {
        JsValueView { js_type: self.js_type, val: self.val }
    }
}

impl JsValue {
    /// The declared type and the representation agree.
    pub open spec fn wf(&self) -> bool {
        consistent(self@.js_type, self@.val)
    }

    /// How the value is held.
    pub fn val(&self) -> (val: Val)
        ensures
            val == self@.val,
    {
        self.val
    }
}

} // verus!
