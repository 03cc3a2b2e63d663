use wasm_val::wasm_ffi::SINGLE_VAL_VEC_LEN;
use wasm_val::{HostCall, JsSerializable, JsValue, TypeTag};

fn value(tag: TypeTag, payload: &[u8]) -> JsValue {
    let mut buf: Vec<u8> = vec![tag.to_u8()];
    buf.extend_from_slice(payload);
    buf.resize(SINGLE_VAL_VEC_LEN, 0);
    JsValue::get_single_val(buf)
}

fn function(id: u32) -> JsValue {
    value(TypeTag::Function, &id.to_le_bytes())
}

fn object(id: u32) -> JsValue {
    value(TypeTag::Object, &id.to_le_bytes())
}

fn array(id: u32) -> JsValue {
    value(TypeTag::Array, &id.to_le_bytes())
}

#[test]
fn call_on_a_function_crosses_with_its_handle() {
    assert_eq!(function(7).call(), Some(HostCall::Call0 { ref_id: 7 }));
}

#[test]
fn call_on_anything_else_gives_nothing() {
    assert_eq!(object(7).call(), None);
    assert_eq!(array(7).call(), None);
    assert_eq!(value(TypeTag::UInt8, &[1]).call(), None);
    assert_eq!(value(TypeTag::Empty, &[]).call(), None);
    assert_eq!(value(TypeTag::BoolTrue, &[]).call(), None);
    assert_eq!(value(TypeTag::String, &[1, 0, 0, 0, 4, 0, 0, 0]).call(), None);
    assert_eq!(value(TypeTag::Error, &[1, 0, 0, 0]).call(), None);
}

#[test]
fn call_with_arg_on_anything_else_gives_nothing() {
    let n: u8 = 1;
    assert_eq!(object(7).call_with_arg(n), None);
    assert_eq!(value(TypeTag::Int32, &[1, 0, 0, 0]).call_with_arg(true), None);
    let args: [&dyn JsSerializable; 1] = [&n];
    assert_eq!(array(7).call_with_args(&args), None);
}

#[test]
fn a_function_whose_type_was_changed_is_none() {
    let mut v = function(7);
    v.js_type = wasm_val::Type::Object;
    assert_eq!(v.call(), None);
    assert_eq!(v.call_method("m"), Some(HostCall::CallMethod0 { ref_id: 7, name: "m" }));
    let mut n = value(TypeTag::UInt8, &[1]);
    n.js_type = wasm_val::Type::Function;
    assert_eq!(n.call(), None);
}

#[test]
fn call_with_arg_encodes_the_argument() {
    let n: u8 = 200;
    assert_eq!(
        function(3).call_with_arg(n),
        Some(HostCall::Call1 { ref_id: 3, arg: vec![TypeTag::UInt8.to_u8(), 0xC8] })
    );
}

#[test]
fn call_with_args_encodes_them_in_order() {
    let a: u32 = 42;
    let b: i8 = -1;
    let args: [&dyn JsSerializable; 3] = [&a, &false, &b];
    assert_eq!(
        function(9).call_with_args(&args),
        Some(HostCall::CallArgs {
            ref_id: 9,
            argc: 3,
            args: vec![
                TypeTag::UInt32.to_u8(),
                42,
                0,
                0,
                0,
                TypeTag::BoolFalse.to_u8(),
                TypeTag::Int8.to_u8(),
                0xFF
            ],
        })
    );
}

#[test]
fn call_with_no_args_is_an_empty_stream() {
    let args: [&dyn JsSerializable; 0] = [];
    assert_eq!(
        function(9).call_with_args(&args),
        Some(HostCall::CallArgs { ref_id: 9, argc: 0, args: vec![] })
    );
}

#[test]
fn method_calls_take_any_reference() {
    assert_eq!(
        object(1).call_method("run"),
        Some(HostCall::CallMethod0 { ref_id: 1, name: "run" })
    );
    assert_eq!(
        array(2).call_method("push"),
        Some(HostCall::CallMethod0 { ref_id: 2, name: "push" })
    );
    assert_eq!(
        function(3).call_method("bind"),
        Some(HostCall::CallMethod0 { ref_id: 3, name: "bind" })
    );
    assert_eq!(
        value(TypeTag::Float64Array, &[4, 0, 0, 0]).call_method("fill"),
        Some(HostCall::CallMethod0 { ref_id: 4, name: "fill" })
    );
}

#[test]
fn method_calls_on_what_is_no_reference_give_nothing() {
    let n: u8 = 1;
    let args: [&dyn JsSerializable; 1] = [&n];
    let plain = value(TypeTag::UInt16, &[1, 0]);
    assert_eq!(plain.call_method("m"), None);
    assert_eq!(plain.call_method_with_arg("m", n), None);
    assert_eq!(plain.call_method_with_args("m", &args), None);
    assert_eq!(plain.set_val("m", n), None);
    assert_eq!(value(TypeTag::Empty, &[]).call_method("m"), None);
    assert_eq!(value(TypeTag::BoolFalse, &[]).call_method("m"), None);
    assert_eq!(value(TypeTag::String, &[1, 0, 0, 0, 4, 0, 0, 0]).call_method("m"), None);
}

#[test]
fn method_call_with_arg_encodes_the_argument() {
    let n: i16 = -132;
    assert_eq!(
        object(5).call_method_with_arg("set", n),
        Some(HostCall::CallMethod1 {
            ref_id: 5,
            name: "set",
            arg: vec![TypeTag::Int16.to_u8(), 0x7C, 0xFF],
        })
    );
}

#[test]
fn method_call_with_text_argument_is_nine_bytes() {
    let text: &str = "hi";
    match object(5).call_method_with_arg("log", text) {
        Some(HostCall::CallMethod1 { ref_id, name, arg }) => {
            assert_eq!(ref_id, 5);
            assert_eq!(name, "log");
            assert_eq!(arg.len(), 9);
            assert_eq!(arg[0], TypeTag::String.to_u8());
            assert_eq!(&arg[1..5], &[2, 0, 0, 0]);
        }
        other => panic!("no method call: {:?}", other),
    }
}

#[test]
fn method_call_with_args_encodes_them_in_order() {
    let a: u16 = 517;
    let args: [&dyn JsSerializable; 2] = [&true, &a];
    assert_eq!(
        array(6).call_method_with_args("splice", &args),
        Some(HostCall::CallMethodArgs {
            ref_id: 6,
            name: "splice",
            argc: 2,
            args: vec![TypeTag::BoolTrue.to_u8(), TypeTag::UInt16.to_u8(), 0x05, 0x02],
        })
    );
}

#[test]
fn set_val_takes_any_reference() {
    assert_eq!(
        object(8).set_val("flag", true),
        Some(HostCall::SetVal { ref_id: 8, name: "flag", arg: vec![TypeTag::BoolTrue.to_u8()] })
    );
}

#[test]
fn get_global_names_the_value() {
    assert_eq!(JsValue::get_global("container"), HostCall::GetGlobal { name: "container" });
}

#[test]
fn handles_are_told_by_type_and_representation() {
    assert_eq!(function(11).function_ref_id(), Some(11));
    assert_eq!(function(11).ref_id(), Some(11));
    assert_eq!(object(12).function_ref_id(), None);
    assert_eq!(object(12).ref_id(), Some(12));
    assert_eq!(value(TypeTag::UInt8, &[1]).ref_id(), None);
}
