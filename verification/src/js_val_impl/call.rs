//! Call invocation: which crossing of the boundary an operation on a value
//! comes to, if it comes to one. Invoking a value is open to functions only;
//! invoking a member by name is open to everything that the host holds by
//! reference.

use crate::js_ser::{is_wire_stream, ser_args, wire_size_sum, JsSerializable};
use crate::wasm_ffi::HostCall;
use crate::{consistent, JsValue, JsValueView, Type, Val};
use vstd::prelude::*;

verus! {

impl JsValueView {
    /// The handle of a value that is held by reference, whatever its type.
    pub open spec fn ref_id(self) -> Option<u32> {
        match self.val {
            Val::Ref(ref_id) => Some(ref_id),
            _ => None,
        }
    }

    /// The handle of a value that is declared a function and held by
    /// reference.
    pub open spec fn function_ref_id(self) -> Option<u32> {
        if self.js_type == Type::Function {
            self.ref_id()
        } else {
            None
        }
    }
}

/// Of a value whose declared type and representation agree, the declared
/// type alone decides which calls go through: invoking it is open to a
/// function and to nothing else, and invoking a member is open to an array,
/// a typed array, an object, a function and an error, and to nothing else.
pub proof fn lemma_type_gates_calls(value: JsValueView)
    requires
        consistent(value.js_type, value.val),
    ensures
        value.function_ref_id() is Some <==> value.js_type == Type::Function,
        value.ref_id() is Some <==> {
            ||| value.js_type == Type::Array
            ||| value.js_type is TypedArray
            ||| value.js_type == Type::Object
            ||| value.js_type == Type::Function
            ||| value.js_type == Type::Error
        },
{
}

impl JsValue {
    /// The handle by which the host knows this value, if it is held by
    /// reference.
    pub fn ref_id(&self) -> (id: Option<u32>)
        ensures
            id == self@.ref_id(),
    {
        match self.val {
            Val::Ref(ref_id) => Some(ref_id),
            _ => None,
        }
    }

    /// The handle by which the host knows this function, if the value is
    /// one.
    pub fn function_ref_id(&self) -> (id: Option<u32>)
        ensures
            id == self@.function_ref_id(),
    {
        match self.js_type {
            Type::Function => self.ref_id(),
            _ => None,
        }
    }

    /// Invokes the value as a function, without arguments.
    pub fn call(&self) -> (request: Option<HostCall<'static>>)
        ensures
            self@.function_ref_id() is None ==> request is None,
            self@.function_ref_id() matches Some(id) ==> request == Some(
                HostCall::Call0 { ref_id: id },
            ),
    {
        match self.function_ref_id() {
            Some(ref_id) => Some(HostCall::Call0 { ref_id }),
            None => None,
        }
    }

    /// Invokes the value as a function, with one argument.
    pub fn call_with_arg<S>(&self, arg: S) -> (request: Option<HostCall<'static>>) where
        S: JsSerializable,

        ensures
            self@.function_ref_id() is None ==> request is None,
            self@.function_ref_id() matches Some(id) ==> {
                &&& request matches Some(HostCall::Call1 { ref_id, arg: encoded })
                &&& ref_id == id
                &&& arg.is_wire_form(encoded@)
            },
    {
        match self.function_ref_id() {
            Some(ref_id) => {
                let mut cursor: Vec<u8> = Vec::with_capacity(arg.size() as usize);
                arg.ser(&mut cursor);
                assert(cursor@.subrange(0, cursor@.len() as int) == cursor@);
                Some(HostCall::Call1 { ref_id, arg: cursor })
            },
            None => None,
        }
    }

    /// Invokes the value as a function, with a list of arguments.
    pub fn call_with_args(&self, args: &[&dyn JsSerializable]) -> (request: Option<
        HostCall<'static>,
    >)
        requires
            wire_size_sum(args@) <= u32::MAX,
        ensures
            self@.function_ref_id() is None ==> request is None,
            self@.function_ref_id() matches Some(id) ==> {
                &&& request matches Some(HostCall::CallArgs { ref_id, argc, args: encoded })
                &&& ref_id == id
                &&& argc == args@.len()
                &&& is_wire_stream(args@, encoded@)
                &&& encoded@.len() == wire_size_sum(args@)
            },
    {
        match self.function_ref_id() {
            Some(ref_id) => {
                let encoded = ser_args(args);
                Some(HostCall::CallArgs { ref_id, argc: args.len() as u32, args: encoded })
            },
            None => None,
        }
    }

    /// Invokes a member of the value by name, without arguments.
    pub fn call_method<'a>(&self, name: &'a str) -> (request: Option<HostCall<'a>>)
        ensures
            self@.ref_id() is None ==> request is None,
            self@.ref_id() matches Some(id) ==> request == Some(
                HostCall::CallMethod0 { ref_id: id, name },
            ),
    {
        match self.ref_id() {
            Some(ref_id) => Some(HostCall::CallMethod0 { ref_id, name }),
            None => None,
        }
    }

    /// Invokes a member of the value by name, with one argument.
    pub fn call_method_with_arg<'a, S>(&self, name: &'a str, arg: S) -> (request: Option<
        HostCall<'a>,
    >) where S: JsSerializable
        ensures
            self@.ref_id() is None ==> request is None,
            self@.ref_id() matches Some(id) ==> {
                &&& request matches Some(HostCall::CallMethod1 { ref_id, name: member, arg: encoded })
                &&& ref_id == id
                &&& member == name
                &&& arg.is_wire_form(encoded@)
            },
    {
        match self.ref_id() {
            Some(ref_id) => {
                let mut cursor: Vec<u8> = Vec::with_capacity(arg.size() as usize);
                arg.ser(&mut cursor);
                assert(cursor@.subrange(0, cursor@.len() as int) == cursor@);
                Some(HostCall::CallMethod1 { ref_id, name, arg: cursor })
            },
            None => None,
        }
    }

    /// Invokes a member of the value by name, with a list of arguments.
    pub fn call_method_with_args<'a>(&self, name: &'a str, args: &[&dyn JsSerializable]) -> (request:
        Option<HostCall<'a>>)
        requires
            wire_size_sum(args@) <= u32::MAX,
        ensures
            self@.ref_id() is None ==> request is None,
            self@.ref_id() matches Some(id) ==> {
                &&& request matches Some(
                    HostCall::CallMethodArgs { ref_id, name: member, argc, args: encoded },
                )
                &&& ref_id == id
                &&& member == name
                &&& argc == args@.len()
                &&& is_wire_stream(args@, encoded@)
                &&& encoded@.len() == wire_size_sum(args@)
            },
    {
        match self.ref_id() {
            Some(ref_id) => {
                let encoded = ser_args(args);
                Some(HostCall::CallMethodArgs { ref_id, name, argc: args.len() as u32, args: encoded })
            },
            None => None,
        }
    }
}

} // verus!
