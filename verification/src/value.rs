//! Runtime values and the truthiness rule.

use vstd::prelude::*;

verus! {

/// Identifies a slot of the managed heap; it is what crosses into native code
/// in place of a pointer.
pub type Handle = usize;

/// Identifies a closure record held by the heap.
pub type ClosureId = usize;

/// A runtime value. The set of variants is closed.
#[derive(Clone, Copy, Debug, PartialEq, Eq, Structural)]
pub enum Value {
    /// The placeholder of a binding that has not been given a value yet.
    Undefined,
    /// The empty list.
    Null,
    /// A boolean; `Boolean(false)` is the only value that is not true.
    Boolean(bool),
    /// An integer.
    Number(i64),
    /// A reference to a closure record of the heap.
    Closure(ClosureId),
}

/// How a closure is entered: machine code or a body to interpret.
#[derive(Clone, Copy, Debug, PartialEq, Eq, Structural)]
pub enum EntryPoint {
    /// The address of a native function.
    Native(usize),
    /// The identifier of a body that an interpreter runs.
    Interpreted(u64),
}

/// A captured environment, the captured global bindings and an entry point.
/// Both lists are in calling-convention order.
#[derive(Clone, Debug, PartialEq, Eq)]
pub struct Closure {
    pub env: Vec<Handle>,
    pub globals: Vec<Handle>,
    pub entry: EntryPoint,
}

impl Closure {
    /// Pairs the captured handles with an entry point, keeping their order.
    pub fn new(env: Vec<Handle>, globals: Vec<Handle>, entry: EntryPoint) -> (c: Closure)
        ensures
            c.env@ == env@,
            c.globals@ == globals@,
            c.entry == entry,
    {
        Closure { env, globals, entry }
    }
}

impl Value {
    /// The truthiness rule: every value but `Boolean(false)` is true.
    pub open spec fn spec_is_true(self) -> bool {
        self != Value::Boolean(false)
    }

    /// Whether the value triggers a conditional.
    pub fn is_true(&self) -> (r: bool)
        ensures
            r == self.spec_is_true(),
    {
        match self {
            Value::Boolean(b) => *b,
            _ => true,
        }
    }
}

} // verus!
