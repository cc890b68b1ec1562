//! The reference-counted heap behind the handles.
//!
//! A handle is the index of a slot. A slot holds a value and the number of
//! ownership units that are outstanding for it; a slot whose count has
//! reached zero is freed and stays freed.

use vstd::prelude::*;
use crate::value::{Closure, ClosureId, Handle, Value};

verus! {

/// One cell of the heap: a value and its reference count.
#[derive(Clone, Copy, Debug, PartialEq, Eq, Structural)]
pub struct Slot {
    pub value: Value,
    pub refs: usize,
}

/// Why a primitive of the runtime refused to work.
#[derive(Clone, Copy, Debug, PartialEq, Eq, Structural)]
pub enum AbiError {
    /// The handle names no slot, or a slot that has been freed.
    InvalidHandle,
    /// The operator of a call is not a closure.
    NotAClosure,
    /// One more clone would overflow the reference count.
    TooManyReferences,
}

/// A handle is live when it names a slot that has not been freed.
pub open spec fn is_live(slots: Seq<Slot>, h: Handle) -> bool {
    h < slots.len() && slots[h as int].refs > 0
}

/// The slots after one more ownership unit of `h` has been handed out.
pub open spec fn retained(slots: Seq<Slot>, h: Handle) -> Seq<Slot> {
    if is_live(slots, h) && slots[h as int].refs < usize::MAX {
        slots.update(
            h as int,
            Slot { value: slots[h as int].value, refs: (slots[h as int].refs + 1) as usize },
        )
    } else {
        slots
    }
}

/// The slots after one ownership unit of `h` has been given up. A handle that
/// is not live is left alone.
pub open spec fn released(slots: Seq<Slot>, h: Handle) -> Seq<Slot> {
    if is_live(slots, h) {
        slots.update(
            h as int,
            Slot { value: slots[h as int].value, refs: (slots[h as int].refs - 1) as usize },
        )
    } else {
        slots
    }
}

/// The slots after the value behind `h` has been replaced by `v`.
pub open spec fn written(slots: Seq<Slot>, h: Handle, v: Value) -> Seq<Slot> {
    if is_live(slots, h) {
        slots.update(h as int, Slot { value: v, refs: slots[h as int].refs })
    } else {
        slots
    }
}

/// The slots after each handle of `hs` has been released in turn.
pub open spec fn released_all(slots: Seq<Slot>, hs: Seq<Handle>) -> Seq<Slot>
    decreases hs.len(),
{
    if hs.len() == 0 {
        slots
    } else {
        released_all(released(slots, hs[0]), hs.drop_first())
    }
}

/// How many handles of `hs` are found not live when they are released in turn.
pub open spec fn rejected_count(slots: Seq<Slot>, hs: Seq<Handle>) -> nat
    decreases hs.len(),
{
    if hs.len() == 0 {
        0
    } else {
        let here: nat = if is_live(slots, hs[0]) { 0 } else { 1 };
        here + rejected_count(released(slots, hs[0]), hs.drop_first())
    }
}

/// One operation on the ownership units of a handle.
#[derive(Clone, Copy, Debug, PartialEq, Eq, Structural)]
pub enum RefOp {
    /// One more unit is handed out.
    Clone,
    /// One unit is given up.
    Release,
}

/// The slots after `ops` have been made on `h`, one after the other.
pub open spec fn applied(slots: Seq<Slot>, h: Handle, ops: Seq<RefOp>) -> Seq<Slot>
    decreases ops.len(),
{
    if ops.len() == 0 {
        slots
    } else {
        let before = applied(slots, h, ops.drop_last());
        match ops.last() {
            RefOp::Clone => retained(before, h),
            RefOp::Release => released(before, h),
        }
    }
}

/// How many operations of `ops` are of the kind `kind`.
pub open spec fn count_ops(ops: Seq<RefOp>, kind: RefOp) -> nat
    decreases ops.len(),
{
    if ops.len() == 0 {
        0
    } else {
        let here: nat = if ops.last() == kind { 1 } else { 0 };
        count_ops(ops.drop_last(), kind) + here
    }
}

/// Whether `ops` keep to the rules: each is made while `h` is live, and no
/// clone is made at the largest count.
pub open spec fn in_protocol(slots: Seq<Slot>, h: Handle, ops: Seq<RefOp>) -> bool
    decreases ops.len(),
{
    if ops.len() == 0 {
        true
    } else {
        let before = applied(slots, h, ops.drop_last());
        &&& in_protocol(slots, h, ops.drop_last())
        &&& is_live(before, h)
        &&& ops.last() == RefOp::Clone ==> before[h as int].refs < usize::MAX
    }
}

/// Reference counts are conserved. After any run of clones and releases that
/// keeps to the rules, the count of `h` is what it was, plus the clones,
/// minus the releases. So the slot is freed exactly when the releases have
/// used up the units that were there and those that the clones added: for a
/// fresh allocation, when there is one release more than there are clones.
/// The value and all other slots are as they were.
pub proof fn lemma_refcount_conservation(slots: Seq<Slot>, h: Handle, ops: Seq<RefOp>)
    requires
        is_live(slots, h),
        in_protocol(slots, h, ops),
    ensures
        applied(slots, h, ops).len() == slots.len(),
        applied(slots, h, ops)[h as int].refs == slots[h as int].refs + count_ops(
            ops,
            RefOp::Clone,
        ) - count_ops(ops, RefOp::Release),
        applied(slots, h, ops)[h as int].value == slots[h as int].value,
        !is_live(applied(slots, h, ops), h) <==> count_ops(ops, RefOp::Release)
            == slots[h as int].refs + count_ops(ops, RefOp::Clone),
        forall|k: int|
            0 <= k < slots.len() && k != h ==> #[trigger] applied(slots, h, ops)[k] == slots[k],
    decreases ops.len(),
{
    if ops.len() > 0 {
        lemma_refcount_conservation(slots, h, ops.drop_last());
    }
}

/// A freed slot stays freed: no clone, release or write brings it back or
/// changes anything, so nothing is freed twice.
pub proof fn lemma_freed_is_final(slots: Seq<Slot>, h: Handle, v: Value)
    requires
        !is_live(slots, h),
    ensures
        retained(slots, h) == slots,
        released(slots, h) == slots,
        written(slots, h, v) == slots,
{
}

/// Storing keeps identity. After the value behind `from` has been written
/// over the one behind `to`, `to` is the same live slot with the same count
/// and holds what `from` held; no other slot has changed; and a later write
/// to `from` does not reach `to`.
pub proof fn lemma_store_keeps_identity(slots: Seq<Slot>, from: Handle, to: Handle, later: Value)
    requires
        is_live(slots, from),
        is_live(slots, to),
    ensures
        ({
            let stored = written(slots, to, slots[from as int].value);
            &&& stored.len() == slots.len()
            &&& is_live(stored, to)
            &&& stored[to as int].refs == slots[to as int].refs
            &&& stored[to as int].value == slots[from as int].value
            &&& forall|k: int| 0 <= k < slots.len() && k != to ==> #[trigger] stored[k] == slots[k]
            &&& from != to ==> written(stored, from, later)[to as int].value
                == slots[from as int].value
        }),
{
}

/// The managed heap: value slots, and the closure records that closure
/// values refer to. A closure record is shared by every copy of its value and
/// lives as long as the heap does, together with the units it captured.
pub struct Heap {
    slots: Vec<Slot>,
    closures: Vec<Closure>,
}

impl Heap {
    /// The value slots, by handle.
    pub closed spec fn slots(&self) -> Seq<Slot> {
        self.slots@
    }

    /// The closure records, by identifier.
    pub closed spec fn closures(&self) -> Seq<Closure> {
        self.closures@
    }

    /// Whether `h` names a slot that has not been freed.
    pub open spec fn live(&self, h: Handle) -> bool {
        is_live(self.slots(), h)
    }

    /// An empty heap.
    pub fn new() -> (heap: Heap)
        ensures
            heap.slots() == Seq::<Slot>::empty(),
            heap.closures() == Seq::<Closure>::empty(),
    {
        Heap { slots: Vec::new(), closures: Vec::new() }
    }

    /// Puts `value` into a fresh slot and returns its handle, which stands
    /// for one ownership unit.
    pub fn allocate(&mut self, value: Value) -> (h: Handle)
        ensures
            h == old(self).slots().len(),
            final(self).slots() == old(self).slots().push(Slot { value, refs: 1 }),
            final(self).closures() == old(self).closures(),
    {
        let h: usize = self.slots.len();
        self.slots.push(Slot { value, refs: 1 });
        h
    }

    /// Whether `h` is live.
    pub fn is_live(&self, h: Handle) -> (r: bool)
        ensures
            r == self.live(h),
    {
        h < self.slots.len() && self.slots[h].refs > 0
    }

    /// The number of ownership units outstanding for `h`; zero for a handle
    /// that is not live.
    pub fn ref_count(&self, h: Handle) -> (n: usize)
        ensures
            self.live(h) ==> n == self.slots()[h as int].refs,
            !self.live(h) ==> n == 0,
    {
        if h < self.slots.len() {
            self.slots[h].refs
        } else {
            0
        }
    }

    /// Hands out one more ownership unit of `h`.
    pub fn retain(&mut self, h: Handle) -> (r: Result<(), AbiError>)
        ensures
            final(self).closures() == old(self).closures(),
            r is Ok <==> old(self).live(h) && old(self).slots()[h as int].refs < usize::MAX,
            r == Err::<(), AbiError>(AbiError::InvalidHandle) <==> !old(self).live(h),
            r is Ok ==> final(self).slots() == retained(old(self).slots(), h),
            r is Err ==> final(self).slots() == old(self).slots(),
            r is Err ==> r == Err::<(), AbiError>(AbiError::InvalidHandle)
                || r == Err::<(), AbiError>(AbiError::TooManyReferences),
    {
        if !self.is_live(h) {
            return Err(AbiError::InvalidHandle);
        }
        let slot: Slot = self.slots[h];
        if slot.refs == usize::MAX {
            return Err(AbiError::TooManyReferences);
        }
        self.slots.set(h, Slot { value: slot.value, refs: slot.refs + 1 });
        Ok(())
    }

    /// Gives up one ownership unit of `h`. The answer says whether that was
    /// the last one, in which case the slot is now freed.
    pub fn release(&mut self, h: Handle) -> (r: Result<bool, AbiError>)
        ensures
            final(self).closures() == old(self).closures(),
            final(self).slots() == released(old(self).slots(), h),
            old(self).live(h) ==> r == Ok::<bool, AbiError>(old(self).slots()[h as int].refs == 1),
            !old(self).live(h) ==> r == Err::<bool, AbiError>(AbiError::InvalidHandle),
            r is Ok ==> (r == Ok::<bool, AbiError>(true) <==> !final(self).live(h)),
    {
        if !self.is_live(h) {
            return Err(AbiError::InvalidHandle);
        }
        let slot: Slot = self.slots[h];
        self.slots.set(h, Slot { value: slot.value, refs: slot.refs - 1 });
        Ok(slot.refs == 1)
    }

    /// The value behind `h`.
    pub fn read(&self, h: Handle) -> (r: Result<Value, AbiError>)
        ensures
            self.live(h) ==> r == Ok::<Value, AbiError>(self.slots()[h as int].value),
            !self.live(h) ==> r == Err::<Value, AbiError>(AbiError::InvalidHandle),
    {
        if !self.is_live(h) {
            return Err(AbiError::InvalidHandle);
        }
        Ok(self.slots[h].value)
    }

    /// Replaces the value behind `h` in place: the handle and its reference
    /// count stay as they are.
    pub fn write(&mut self, h: Handle, value: Value) -> (r: Result<(), AbiError>)
        ensures
            final(self).closures() == old(self).closures(),
            final(self).slots() == written(old(self).slots(), h, value),
            old(self).live(h) ==> r == Ok::<(), AbiError>(()),
            !old(self).live(h) ==> r == Err::<(), AbiError>(AbiError::InvalidHandle),
    {
        if !self.is_live(h) {
            return Err(AbiError::InvalidHandle);
        }
        let slot: Slot = self.slots[h];
        self.slots.set(h, Slot { value, refs: slot.refs });
        Ok(())
    }

    /// Adds a closure record and returns its identifier.
    pub fn add_closure(&mut self, closure: Closure) -> (id: ClosureId)
        ensures
            id == old(self).closures().len(),
            final(self).closures() == old(self).closures().push(closure),
            final(self).slots() == old(self).slots(),
    {
        let id: usize = self.closures.len();
        self.closures.push(closure);
        id
    }

    /// The closure record `id`, if there is one.
    pub fn closure(&self, id: ClosureId) -> (r: Option<&Closure>)
        ensures
            id < self.closures().len() ==> r == Some(&self.closures()[id as int]),
            id >= self.closures().len() ==> r is None,
    {
        if id < self.closures.len() {
            Some(&self.closures[id])
        } else {
            None
        }
    }
}

} // verus!
