use jit_runtime::abi::{
    alloc_undef_val, drop_values, i64_to_number, make_application, make_closure,
    make_return_values, store, truthy,
};
use jit_runtime::application::Application;
use jit_runtime::heap::{AbiError, Heap};
use jit_runtime::value::{EntryPoint, Value};

#[test]
fn alloc_undef_val_gives_an_undefined_value() {
    let mut heap = Heap::new();
    let h = alloc_undef_val(&mut heap);
    assert_eq!(heap.read(h), Ok(Value::Undefined));
    assert_eq!(heap.ref_count(h), 1);
}

#[test]
fn i64_to_number_boxes_the_integer() {
    let mut heap = Heap::new();
    let a = i64_to_number(&mut heap, 42);
    let b = i64_to_number(&mut heap, i64::MIN);
    assert_eq!(heap.read(a), Ok(Value::Number(42)));
    assert_eq!(heap.read(b), Ok(Value::Number(i64::MIN)));
    assert_ne!(a, b);
}

#[test]
fn only_false_is_not_true() {
    assert!(Value::Undefined.is_true());
    assert!(Value::Null.is_true());
    assert!(Value::Boolean(true).is_true());
    assert!(!Value::Boolean(false).is_true());
    assert!(Value::Number(0).is_true());
    assert!(Value::Number(-1).is_true());
    assert!(Value::Closure(0).is_true());
}

#[test]
fn truthy_reads_through_the_handle_and_keeps_it() {
    let mut heap = Heap::new();
    let values = [
        (Value::Undefined, true),
        (Value::Null, true),
        (Value::Boolean(true), true),
        (Value::Boolean(false), false),
        (Value::Number(0), true),
        (Value::Number(42), true),
        (Value::Closure(0), true),
    ];
    for (v, expected) in values {
        let h = heap.allocate(v);
        assert_eq!(truthy(&heap, h), Ok(expected));
        assert_eq!(heap.ref_count(h), 1);
        assert_eq!(heap.read(h), Ok(v));
    }
    assert_eq!(truthy(&heap, 1000), Err(AbiError::InvalidHandle));
}

#[test]
fn store_copies_the_value_and_keeps_identity() {
    let mut heap = Heap::new();
    let from = i64_to_number(&mut heap, 7);
    let to = alloc_undef_val(&mut heap);
    assert_eq!(heap.retain(to), Ok(()));
    assert_eq!(store(&mut heap, from, to), Ok(()));
    assert_eq!(heap.read(to), Ok(Value::Number(7)));
    assert_eq!(heap.read(from), Ok(Value::Number(7)));
    assert_eq!(heap.ref_count(to), 2);
    assert_eq!(heap.ref_count(from), 1);
    assert_eq!(heap.write(from, Value::Number(9)), Ok(()));
    assert_eq!(heap.read(to), Ok(Value::Number(7)));
}

#[test]
fn store_onto_itself_changes_nothing() {
    let mut heap = Heap::new();
    let h = i64_to_number(&mut heap, 11);
    assert_eq!(store(&mut heap, h, h), Ok(()));
    assert_eq!(heap.read(h), Ok(Value::Number(11)));
    assert_eq!(heap.ref_count(h), 1);
}

#[test]
fn store_refuses_a_dead_handle_on_either_side() {
    let mut heap = Heap::new();
    let live = i64_to_number(&mut heap, 1);
    let dead = i64_to_number(&mut heap, 2);
    assert_eq!(heap.release(dead), Ok(true));
    assert_eq!(store(&mut heap, dead, live), Err(AbiError::InvalidHandle));
    assert_eq!(store(&mut heap, live, dead), Err(AbiError::InvalidHandle));
    assert_eq!(heap.read(live), Ok(Value::Number(1)));
    assert!(!heap.is_live(dead));
}

#[test]
fn drop_values_releases_each_handle_on_its_own() {
    let mut heap = Heap::new();
    let a = i64_to_number(&mut heap, 1);
    let b = i64_to_number(&mut heap, 2);
    let c = i64_to_number(&mut heap, 3);
    assert_eq!(heap.retain(c), Ok(()));
    let rejected = drop_values(&mut heap, &[a, 99, b, c]);
    assert_eq!(rejected, 1);
    assert!(!heap.is_live(a));
    assert!(!heap.is_live(b));
    assert!(heap.is_live(c));
    assert_eq!(heap.ref_count(c), 1);
}

#[test]
fn drop_values_counts_a_second_release_of_the_last_unit() {
    let mut heap = Heap::new();
    let a = i64_to_number(&mut heap, 1);
    assert_eq!(drop_values(&mut heap, &[a, a]), 1);
    assert!(!heap.is_live(a));
    assert_eq!(drop_values(&mut heap, &[]), 0);
}

#[test]
fn make_application_refuses_an_operator_that_is_no_closure() {
    let mut heap = Heap::new();
    let op = i64_to_number(&mut heap, 3);
    let arg = i64_to_number(&mut heap, 4);
    assert_eq!(make_application(&mut heap, op, vec![arg]), Err(AbiError::NotAClosure));
    assert_eq!(heap.ref_count(op), 1);
    assert_eq!(heap.ref_count(arg), 1);
    assert_eq!(heap.read(op), Ok(Value::Number(3)));
}

#[test]
fn make_application_refuses_a_dead_operator() {
    let mut heap = Heap::new();
    assert_eq!(make_application(&mut heap, 0, vec![]), Err(AbiError::InvalidHandle));
    let op = make_closure(&mut heap, vec![], vec![], EntryPoint::Native(64));
    assert_eq!(heap.release(op), Ok(true));
    assert_eq!(make_application(&mut heap, op, vec![]), Err(AbiError::InvalidHandle));
}

#[test]
fn make_application_builds_a_call_and_drops_the_operator_unit() {
    let mut heap = Heap::new();
    let op = make_closure(&mut heap, vec![], vec![], EntryPoint::Native(4096));
    let id = match heap.read(op) {
        Ok(Value::Closure(id)) => id,
        other => panic!("not a closure: {:?}", other),
    };
    let x = i64_to_number(&mut heap, 1);
    let y = i64_to_number(&mut heap, 2);
    assert_eq!(heap.retain(op), Ok(()));
    let app = make_application(&mut heap, op, vec![y, x]);
    assert_eq!(app, Ok(Application::Call { operator: id, args: vec![y, x] }));
    assert_eq!(heap.ref_count(op), 1);
    assert_eq!(heap.ref_count(x), 1);
    assert_eq!(heap.ref_count(y), 1);
    let app = make_application(&mut heap, op, vec![]).unwrap();
    assert_eq!(app.operator(), Some(id));
    assert_eq!(app.into_handles(), Vec::<usize>::new());
    assert!(!heap.is_live(op));
    assert!(heap.closure(id).is_some());
}

#[test]
fn make_return_values_takes_any_number_of_values() {
    let none = make_return_values(vec![]);
    assert_eq!(none, Application::Return { values: vec![] });
    assert_eq!(none.operator(), None);
    let some = make_return_values(vec![5, 3, 5]);
    assert_eq!(some, Application::Return { values: vec![5, 3, 5] });
    assert_eq!(some.into_handles(), vec![5, 3, 5]);
}

#[test]
fn make_closure_keeps_the_order_of_its_captures() {
    let mut heap = Heap::new();
    let g = i64_to_number(&mut heap, 100);
    let b = i64_to_number(&mut heap, 2);
    let a = i64_to_number(&mut heap, 1);
    let h = make_closure(&mut heap, vec![a, b], vec![g], EntryPoint::Native(8192));
    assert_eq!(heap.ref_count(h), 1);
    let id = match heap.read(h) {
        Ok(Value::Closure(id)) => id,
        other => panic!("not a closure: {:?}", other),
    };
    let closure = heap.closure(id).unwrap();
    assert_eq!(closure.env, vec![a, b]);
    assert_eq!(closure.globals, vec![g]);
    assert_eq!(closure.entry, EntryPoint::Native(8192));
    assert_eq!(heap.ref_count(a), 1);
    assert_eq!(heap.ref_count(b), 1);
    assert_eq!(heap.ref_count(g), 1);
}

#[test]
fn two_closures_get_two_records() {
    let mut heap = Heap::new();
    let first = make_closure(&mut heap, vec![], vec![], EntryPoint::Interpreted(1));
    let second = make_closure(&mut heap, vec![first], vec![], EntryPoint::Interpreted(2));
    assert_eq!(heap.read(first), Ok(Value::Closure(0)));
    assert_eq!(heap.read(second), Ok(Value::Closure(1)));
    assert_eq!(heap.closure(1).unwrap().env, vec![first]);
    assert_eq!(heap.closure(0).unwrap().entry, EntryPoint::Interpreted(1));
}

#[test]
fn returning_the_integer_42() {
    let mut heap = Heap::new();
    let h = i64_to_number(&mut heap, 42);
    let app = make_return_values(vec![h]);
    assert_eq!(app.operator(), None);
    let values = app.into_handles();
    assert_eq!(values.len(), 1);
    assert_eq!(heap.read(values[0]), Ok(Value::Number(42)));
    assert_eq!(drop_values(&mut heap, &values), 0);
    assert!(!heap.is_live(h));
}
