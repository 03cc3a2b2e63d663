use std::cell::{Cell, RefCell};
use std::rc::Rc;
use wasm_val::wasm_ffi::SINGLE_VAL_VEC_LEN;
use wasm_val::{CallbackRegistry, JsSerializable, JsValue, Type, Val};

type Registry = CallbackRegistry<Box<dyn Fn()>, Box<dyn Fn(JsValue)>>;

fn reply_for<S: JsSerializable>(value: S) -> Vec<u8> {
    let mut buf: Vec<u8> = Vec::new();
    value.ser(&mut buf);
    buf.resize(SINGLE_VAL_VEC_LEN, 0);
    buf
}

#[test]
fn two_registrations_return_1_then_2() {
    let mut registry: Registry = CallbackRegistry::new();
    assert_eq!(registry.register_callback(Box::new(|| {})), 1);
    assert_eq!(registry.register_callback(Box::new(|| {})), 2);
}

#[test]
fn first_id_is_1_for_either_shape() {
    let mut registry: Registry = CallbackRegistry::new();
    assert_eq!(registry.register_callback_arg(Box::new(|_| {})), 1);
    let mut other: Registry = CallbackRegistry::new();
    assert_eq!(other.get_next_callback_id(), 1);
    assert_eq!(other.get_next_callback_id(), 2);
}

#[test]
fn mixed_registrations_count_up() {
    let mut registry: Registry = CallbackRegistry::new();
    let mut ids: Vec<u32> = Vec::new();
    for i in 0..20u32 {
        if i % 3 == 0 {
            ids.push(registry.register_callback_arg(Box::new(|_| {})));
        } else {
            ids.push(registry.register_callback(Box::new(|| {})));
        }
    }
    let expected: Vec<u32> = (1..=20u32).collect();
    assert_eq!(ids, expected);
    for (i, id) in ids.iter().enumerate() {
        assert_eq!(registry.has_callback_arg(*id), i % 3 == 0);
        assert_eq!(registry.has_callback(*id), i % 3 != 0);
    }
}

#[test]
fn fresh_registry_holds_nothing() {
    let registry: Registry = CallbackRegistry::new();
    assert!(registry.has_room());
    assert!(!registry.has_callback(1));
    assert!(!registry.has_callback_arg(1));
    assert!(!registry.has_callback(0));
}

#[test]
fn zero_arg_callback_runs_each_time_it_is_triggered() {
    let count: Rc<Cell<u32>> = Rc::new(Cell::new(0));
    let seen = count.clone();
    let mut registry: Registry = CallbackRegistry::new();
    let other = registry.register_callback(Box::new(|| panic!("the wrong callback")));
    let id = registry.register_callback(Box::new(move || seen.set(seen.get() + 1)));
    assert_ne!(other, id);
    registry.call_registered_callback(id);
    registry.call_registered_callback(id);
    registry.call_registered_callback(id);
    assert_eq!(count.get(), 3);
}

#[test]
fn one_arg_callback_receives_42() {
    let got: Rc<RefCell<Option<(Type, Val)>>> = Rc::new(RefCell::new(None));
    let sink = got.clone();
    let mut registry: Registry = CallbackRegistry::new();
    let id = registry.register_callback_arg(Box::new(move |v: JsValue| {
        *sink.borrow_mut() = Some((v.js_type, v.val()));
    }));
    let n: u32 = 42;
    registry.call_registered_callback_arg(id, reply_for(n));
    assert_eq!(*got.borrow(), Some((Type::Number, Val::Number(42))));
}

#[test]
fn one_arg_callback_receives_what_each_reply_holds() {
    let got: Rc<RefCell<Vec<Val>>> = Rc::new(RefCell::new(Vec::new()));
    let sink = got.clone();
    let mut registry: Registry = CallbackRegistry::new();
    let id = registry.register_callback_arg(Box::new(move |v: JsValue| {
        sink.borrow_mut().push(v.val());
    }));
    let a: i8 = -5;
    registry.call_registered_callback_arg(id, reply_for(a));
    registry.call_registered_callback_arg(id, reply_for(true));
    assert_eq!(*got.borrow(), vec![Val::Number(-5), Val::Boolean(true)]);
}

#[test]
fn the_two_shapes_share_one_counter_and_no_id() {
    let mut registry: Registry = CallbackRegistry::new();
    let a = registry.register_callback(Box::new(|| {}));
    let b = registry.register_callback_arg(Box::new(|_| {}));
    let c = registry.register_callback(Box::new(|| {}));
    assert_eq!((a, b, c), (1, 2, 3));
    assert!(registry.has_callback(a) && !registry.has_callback_arg(a));
    assert!(registry.has_callback_arg(b) && !registry.has_callback(b));
    assert!(registry.has_callback(c) && !registry.has_callback_arg(c));
}

#[test]
fn a_taken_id_stands_for_nothing() {
    let mut registry: Registry = CallbackRegistry::new();
    let id = registry.get_next_callback_id();
    assert_eq!(id, 1);
    assert!(!registry.has_callback(id));
    assert!(!registry.has_callback_arg(id));
    assert_eq!(registry.register_callback(Box::new(|| {})), 2);
}

#[test]
fn unregistered_ids_are_not_handed_out_again() {
    let mut registry: Registry = CallbackRegistry::new();
    let a = registry.register_callback(Box::new(|| {}));
    let b = registry.register_callback_arg(Box::new(|_| {}));
    assert!(registry.unregister_callback(a));
    assert!(!registry.unregister_callback(a));
    assert!(!registry.has_callback(a));
    assert!(registry.has_callback_arg(b));
    assert!(registry.unregister_callback(b));
    assert!(!registry.has_callback_arg(b));
    assert!(!registry.unregister_callback(99));
    assert_eq!(registry.register_callback(Box::new(|| {})), 3);
}
