use jit_runtime::heap::{AbiError, Heap};
use jit_runtime::value::{Closure, EntryPoint, Value};

#[test]
fn allocate_gives_fresh_handles_with_one_unit() {
    let mut heap = Heap::new();
    let a = heap.allocate(Value::Number(1));
    let b = heap.allocate(Value::Null);
    assert_eq!(a, 0);
    assert_eq!(b, 1);
    assert_eq!(heap.ref_count(a), 1);
    assert_eq!(heap.ref_count(b), 1);
    assert_eq!(heap.read(a), Ok(Value::Number(1)));
    assert_eq!(heap.read(b), Ok(Value::Null));
    assert!(heap.is_live(a));
    assert!(!heap.is_live(2));
}

#[test]
fn value_is_freed_on_the_final_release_only() {
    let mut heap = Heap::new();
    let h = heap.allocate(Value::Number(5));
    for _ in 0..4 {
        assert_eq!(heap.retain(h), Ok(()));
    }
    assert_eq!(heap.ref_count(h), 5);
    for left in [4usize, 3, 2, 1] {
        assert_eq!(heap.release(h), Ok(false));
        assert!(heap.is_live(h));
        assert_eq!(heap.ref_count(h), left);
        assert_eq!(heap.read(h), Ok(Value::Number(5)));
    }
    assert_eq!(heap.release(h), Ok(true));
    assert!(!heap.is_live(h));
    assert_eq!(heap.ref_count(h), 0);
}

#[test]
fn clones_and_releases_may_interleave() {
    let mut heap = Heap::new();
    let h = heap.allocate(Value::Undefined);
    assert_eq!(heap.retain(h), Ok(()));
    assert_eq!(heap.release(h), Ok(false));
    assert_eq!(heap.retain(h), Ok(()));
    assert_eq!(heap.retain(h), Ok(()));
    assert_eq!(heap.release(h), Ok(false));
    assert_eq!(heap.release(h), Ok(false));
    assert_eq!(heap.ref_count(h), 1);
    assert_eq!(heap.release(h), Ok(true));
}

#[test]
fn a_freed_handle_is_refused_ever_after() {
    let mut heap = Heap::new();
    let h = heap.allocate(Value::Number(3));
    let other = heap.allocate(Value::Number(4));
    assert_eq!(heap.release(h), Ok(true));
    assert_eq!(heap.release(h), Err(AbiError::InvalidHandle));
    assert_eq!(heap.retain(h), Err(AbiError::InvalidHandle));
    assert_eq!(heap.read(h), Err(AbiError::InvalidHandle));
    assert_eq!(heap.write(h, Value::Null), Err(AbiError::InvalidHandle));
    assert!(!heap.is_live(h));
    assert_eq!(heap.read(other), Ok(Value::Number(4)));
    assert_eq!(heap.ref_count(other), 1);
    let next = heap.allocate(Value::Null);
    assert_eq!(next, 2);
    assert!(!heap.is_live(h));
}

#[test]
fn a_handle_that_names_no_slot_is_refused() {
    let mut heap = Heap::new();
    assert_eq!(heap.read(0), Err(AbiError::InvalidHandle));
    assert_eq!(heap.retain(7), Err(AbiError::InvalidHandle));
    assert_eq!(heap.release(7), Err(AbiError::InvalidHandle));
    assert_eq!(heap.write(7, Value::Undefined), Err(AbiError::InvalidHandle));
    assert_eq!(heap.ref_count(7), 0);
}

#[test]
fn write_replaces_the_value_and_keeps_the_count() {
    let mut heap = Heap::new();
    let h = heap.allocate(Value::Undefined);
    assert_eq!(heap.retain(h), Ok(()));
    assert_eq!(heap.write(h, Value::Boolean(false)), Ok(()));
    assert_eq!(heap.read(h), Ok(Value::Boolean(false)));
    assert_eq!(heap.ref_count(h), 2);
}

#[test]
fn closure_records_are_found_by_identifier() {
    let mut heap = Heap::new();
    assert!(heap.closure(0).is_none());
    let c = Closure::new(vec![3, 1], vec![2], EntryPoint::Interpreted(9));
    let id = heap.add_closure(c.clone());
    assert_eq!(id, 0);
    assert_eq!(heap.closure(id), Some(&c));
    assert!(heap.closure(1).is_none());
}
