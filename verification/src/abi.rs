//! The primitives that generated code calls back into.
//!
//! Every handle parameter is one of three things: borrowed (the caller keeps
//! its ownership unit), adopted (the unit passes to the runtime), or newly
//! owned (the result carries a fresh unit for the caller).

use vstd::prelude::*;
use crate::application::Application;
use crate::heap::{rejected_count, released, released_all, written, AbiError, Heap, Slot};
use crate::value::{Closure, EntryPoint, Handle, Value};

verus! {

/// Allocates an undefined value. The result is newly owned.
pub fn alloc_undef_val(heap: &mut Heap) -> (h: Handle)
    ensures
        h == old(heap).slots().len(),
        final(heap).slots() == old(heap).slots().push(Slot { value: Value::Undefined, refs: 1 }),
        final(heap).closures() == old(heap).closures(),
{
    heap.allocate(Value::Undefined)
}

/// Boxes an integer as a number. The result is newly owned.
pub fn i64_to_number(heap: &mut Heap, val: i64) -> (h: Handle)
    ensures
        h == old(heap).slots().len(),
        final(heap).slots() == old(heap).slots().push(Slot { value: Value::Number(val), refs: 1 }),
        final(heap).closures() == old(heap).closures(),
{
    heap.allocate(Value::Number(val))
}

/// Adopts every handle of `vals` and drops it at once, one after the other.
/// A handle that is not live is passed over and counted; the others are
/// released all the same.
pub fn drop_values(heap: &mut Heap, vals: &[Handle]) -> (rejected: usize)
    ensures
        final(heap).slots() == released_all(old(heap).slots(), vals@),
        final(heap).closures() == old(heap).closures(),
        rejected == rejected_count(old(heap).slots(), vals@),
{
    let mut rejected: usize = 0;
    let mut i: usize = 0;
    proof {
        assert(vals@.subrange(0, vals@.len() as int) =~= vals@);
    }
    while i < vals.len()
        invariant
            i <= vals.len(),
            rejected <= i,
            heap.closures() == old(heap).closures(),
            released_all(heap.slots(), vals@.subrange(i as int, vals@.len() as int))
                == released_all(old(heap).slots(), vals@),
            rejected + rejected_count(heap.slots(), vals@.subrange(i as int, vals@.len() as int))
                == rejected_count(old(heap).slots(), vals@),
        decreases vals.len() - i,
    {
        proof {
            let rest = vals@.subrange(i as int, vals@.len() as int);
            assert(rest[0] == vals@[i as int]);
            assert(rest.drop_first() =~= vals@.subrange(i + 1, vals@.len() as int));
        }
        match heap.release(vals[i]) {
            Ok(_) => {},
            Err(_) => {
                rejected += 1;
            },
        }
        i += 1;
    }
    rejected
}

/// Whether the value behind `val` counts as true. The handle is borrowed.
pub fn truthy(heap: &Heap, val: Handle) -> (r: Result<bool, AbiError>)
    ensures
        heap.live(val) ==> r == Ok::<bool, AbiError>(
            heap.slots()[val as int].value.spec_is_true(),
        ),
        !heap.live(val) ==> r == Err::<bool, AbiError>(AbiError::InvalidHandle),
{
    match heap.read(val) {
        Ok(v) => Ok(v.is_true()),
        Err(e) => Err(e),
    }
}

/// Copies the value behind `from` over the value behind `to`, in place. Both
/// handles are borrowed: neither reference count changes.
pub fn store(heap: &mut Heap, from: Handle, to: Handle) -> (r: Result<(), AbiError>)
    ensures
        final(heap).closures() == old(heap).closures(),
        old(heap).live(from) && old(heap).live(to) ==> r == Ok::<(), AbiError>(())
            && final(heap).slots() == written(
            old(heap).slots(),
            to,
            old(heap).slots()[from as int].value,
        ),
        !(old(heap).live(from) && old(heap).live(to)) ==> r == Err::<(), AbiError>(
            AbiError::InvalidHandle,
        ) && final(heap).slots() == old(heap).slots(),
{
    if !heap.is_live(to) {
        return Err(AbiError::InvalidHandle);
    }
    match heap.read(from) {
        Ok(v) => heap.write(to, v),
        Err(e) => Err(e),
    }
}

/// Builds the call of `op` with `args`. All handles are adopted: the
/// arguments pass into the record, and the operator's unit is dropped once
/// its closure has been taken out. An operator that is not a closure gives an
/// error, and then the heap is as it was.
pub fn make_application(heap: &mut Heap, op: Handle, args: Vec<Handle>) -> (r: Result<
    Application,
    AbiError,
>)
    ensures
        final(heap).closures() == old(heap).closures(),
        !old(heap).live(op) ==> r == Err::<Application, AbiError>(AbiError::InvalidHandle),
        old(heap).live(op) && !(old(heap).slots()[op as int].value is Closure) ==> r == Err::<
            Application,
            AbiError,
        >(AbiError::NotAClosure),
        old(heap).live(op) && old(heap).slots()[op as int].value is Closure ==> r is Ok
            && r->Ok_0.spec_operator() == Some(old(heap).slots()[op as int].value->Closure_0)
            && r->Ok_0.spec_handles() == args@,
        r is Ok ==> final(heap).slots() == released(old(heap).slots(), op),
        r is Err ==> final(heap).slots() == old(heap).slots(),
{
    match heap.read(op) {
        Err(e) => Err(e),
        Ok(Value::Closure(id)) => {
            let _ = heap.release(op);
            Ok(Application::new(id, args))
        },
        Ok(_) => Err(AbiError::NotAClosure),
    }
}

/// Builds the return of `args`, which are adopted into the record. There is
/// no operator to check, so this cannot fail.
pub fn make_return_values(args: Vec<Handle>) -> (app: Application)
    ensures
        app.spec_operator() == None::<usize>,
        app.spec_handles() == args@,
{
    Application::new_empty(args)
}

/// Builds a closure over `env` and `globals`, in the order given, and boxes
/// it as a value. The captured handles are adopted; the result is newly
/// owned.
pub fn make_closure(
    heap: &mut Heap,
    env: Vec<Handle>,
    globals: Vec<Handle>,
    entry: EntryPoint,
) -> (h: Handle)
    ensures
        h == old(heap).slots().len(),
        final(heap).closures() == old(heap).closures().push((Closure { env, globals, entry })),
        final(heap).slots() == old(heap).slots().push(
            (Slot { value: Value::Closure(old(heap).closures().len() as usize), refs: 1 }),
        ),
{
    let id: usize = heap.add_closure(Closure { env, globals, entry });
    heap.allocate(Value::Closure(id))
}

} // verus!
