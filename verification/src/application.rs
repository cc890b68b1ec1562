//! The record that tells the trampoline what to do next.

use vstd::prelude::*;
use crate::value::{ClosureId, Handle};

verus! {

/// The next step of execution: a call of a closure, or a bare return of
/// values. It owns the handles it holds and is consumed exactly once.
#[derive(Clone, Debug, PartialEq, Eq)]
pub enum Application {
    /// Call `operator` with `args`, in this order.
    Call { operator: ClosureId, args: Vec<Handle> },
    /// Return `values`, in this order; nothing more is called.
    Return { values: Vec<Handle> },
}

impl Application {
    /// The closure to call; `None` for a return.
    pub open spec fn spec_operator(&self) -> Option<ClosureId> {
        match self {
            Application::Call { operator, .. } => Some(*operator),
            Application::Return { .. } => None,
        }
    }

    /// The handles carried: the arguments of a call, the values of a return.
    pub open spec fn spec_handles(&self) -> Seq<Handle> {
        match self {
            Application::Call { args, .. } => args@,
            Application::Return { values } => values@,
        }
    }

    /// A call of `operator` with `args`.
    pub fn new(operator: ClosureId, args: Vec<Handle>) -> (app: Application)
        ensures
            app.spec_operator() == Some(operator),
            app.spec_handles() == args@,
    {
        Application::Call { operator, args }
    }

    /// A return of `values`.
    pub fn new_empty(values: Vec<Handle>) -> (app: Application)
        ensures
            app.spec_operator() == None::<ClosureId>,
            app.spec_handles() == values@,
    {
        Application::Return { values }
    }

    /// The closure to call; `None` for a return.
    pub fn operator(&self) -> (r: Option<ClosureId>)
        ensures
            r == self.spec_operator(),
    {
        match self {
            Application::Call { operator, .. } => Some(*operator),
            Application::Return { .. } => None,
        }
    }

    /// Consumes the record and hands out the handles it owned.
    pub fn into_handles(self) -> (r: Vec<Handle>)
        ensures
            r@ == self.spec_handles(),
    {
        match self {
            Application::Call { args, .. } => args,
            Application::Return { values } => values,
        }
    }
}

} // verus!
