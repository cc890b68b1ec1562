//! The execution core of a compiled language runtime, modelled over an
//! index-addressed reference-counted heap.

pub mod abi;
pub mod application;
pub mod heap;
pub mod scheduler;
pub mod symbols;
pub mod value;
