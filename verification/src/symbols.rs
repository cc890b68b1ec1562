//! The table of native entry points that generated code resolves by name.
//!
//! Names and signatures are a compatibility contract with the code
//! generator: both sides change in lockstep or not at all.

use vstd::prelude::*;

verus! {

/// The kinds of argument and result that cross the boundary.
#[derive(Clone, Copy, Debug, PartialEq, Eq, Structural)]
pub enum AbiType {
    Void,
    Bool,
    I32,
    I64,
    Ptr,
}

/// The primitives of the runtime, in the order in which they are registered.
#[derive(Clone, Copy, Debug, PartialEq, Eq, Structural)]
pub enum RuntimeFn {
    AllocUndefVal,
    DropValues,
    I64ToNumber,
    MakeApplication,
    MakeReturnValues,
    Truthy,
    Store,
    MakeClosure,
}

/// A symbol as the code generator declares it.
#[derive(Clone, Debug, PartialEq, Eq)]
pub struct Signature {
    pub function: RuntimeFn,
    pub name: &'static str,
    pub params: Vec<AbiType>,
    pub result: AbiType,
}

/// The name under which a primitive is registered.
pub open spec fn spec_name(f: RuntimeFn) -> Seq<char> {
    match f {
        RuntimeFn::AllocUndefVal => "alloc_undef_val"@,
        RuntimeFn::DropValues => "drop_values"@,
        RuntimeFn::I64ToNumber => "i64_to_number"@,
        RuntimeFn::MakeApplication => "make_application"@,
        RuntimeFn::MakeReturnValues => "make_return_values"@,
        RuntimeFn::Truthy => "truthy"@,
        RuntimeFn::Store => "store"@,
        RuntimeFn::MakeClosure => "make_closure"@,
    }
}

/// The kinds of a primitive's arguments, in order. An array of handles
/// crosses as a pointer followed by a 32-bit count.
pub open spec fn spec_params(f: RuntimeFn) -> Seq<AbiType> {
    match f {
        RuntimeFn::AllocUndefVal => seq![],
        RuntimeFn::DropValues => seq![AbiType::Ptr, AbiType::I32],
        RuntimeFn::I64ToNumber => seq![AbiType::I64],
        RuntimeFn::MakeApplication => seq![AbiType::Ptr, AbiType::Ptr, AbiType::I32],
        RuntimeFn::MakeReturnValues => seq![AbiType::Ptr, AbiType::I32],
        RuntimeFn::Truthy => seq![AbiType::Ptr],
        RuntimeFn::Store => seq![AbiType::Ptr, AbiType::Ptr],
        RuntimeFn::MakeClosure => seq![
            AbiType::Ptr,
            AbiType::I32,
            AbiType::Ptr,
            AbiType::I32,
            AbiType::Ptr,
        ],
    }
}

/// The kind of a primitive's result.
pub open spec fn spec_result(f: RuntimeFn) -> AbiType {
    match f {
        RuntimeFn::AllocUndefVal => AbiType::Ptr,
        RuntimeFn::DropValues => AbiType::Void,
        RuntimeFn::I64ToNumber => AbiType::Ptr,
        RuntimeFn::MakeApplication => AbiType::Ptr,
        RuntimeFn::MakeReturnValues => AbiType::Ptr,
        RuntimeFn::Truthy => AbiType::Bool,
        RuntimeFn::Store => AbiType::Void,
        RuntimeFn::MakeClosure => AbiType::Ptr,
    }
}

/// All primitives, in registration order.
pub open spec fn spec_runtime_functions() -> Seq<RuntimeFn> {
    seq![
        RuntimeFn::AllocUndefVal,
        RuntimeFn::DropValues,
        RuntimeFn::I64ToNumber,
        RuntimeFn::MakeApplication,
        RuntimeFn::MakeReturnValues,
        RuntimeFn::Truthy,
        RuntimeFn::Store,
        RuntimeFn::MakeClosure,
    ]
}

/// Whether `s` is the declaration of `f`.
pub open spec fn declares(s: Signature, f: RuntimeFn) -> bool {
    s.function == f && s.name@ == spec_name(f) && s.params@ == spec_params(f) && s.result == spec_result(f)
}

/// The declaration of one primitive.
pub fn signature(f: RuntimeFn) -> (s: Signature)
    ensures
        declares(s, f),
{
    let (name, params, result): (&'static str, Vec<AbiType>, AbiType) = match f {
        RuntimeFn::AllocUndefVal => ("alloc_undef_val", vec![], AbiType::Ptr),
        RuntimeFn::DropValues => ("drop_values", vec![AbiType::Ptr, AbiType::I32], AbiType::Void),
        RuntimeFn::I64ToNumber => ("i64_to_number", vec![AbiType::I64], AbiType::Ptr),
        RuntimeFn::MakeApplication => (
            "make_application",
            vec![AbiType::Ptr, AbiType::Ptr, AbiType::I32],
            AbiType::Ptr,
        ),
        RuntimeFn::MakeReturnValues => (
            "make_return_values",
            vec![AbiType::Ptr, AbiType::I32],
            AbiType::Ptr,
        ),
        RuntimeFn::Truthy => ("truthy", vec![AbiType::Ptr], AbiType::Bool),
        RuntimeFn::Store => ("store", vec![AbiType::Ptr, AbiType::Ptr], AbiType::Void),
        RuntimeFn::MakeClosure => (
            "make_closure",
            vec![AbiType::Ptr, AbiType::I32, AbiType::Ptr, AbiType::I32, AbiType::Ptr],
            AbiType::Ptr,
        ),
    };
    proof {
        assert(params@ =~= spec_params(f));
    }
    Signature { function: f, name, params, result }
}

/// The symbol table to register with the code generator: one declaration
/// for each primitive, in registration order.
pub fn install_runtime() -> (table: Vec<Signature>)
    ensures
        table@.len() == spec_runtime_functions().len(),
        forall|i: int|
            0 <= i < table@.len() ==> declares(#[trigger] table@[i], spec_runtime_functions()[i]),
{
    let mut table: Vec<Signature> = Vec::new();
    table.push(signature(RuntimeFn::AllocUndefVal));
    table.push(signature(RuntimeFn::DropValues));
    table.push(signature(RuntimeFn::I64ToNumber));
    table.push(signature(RuntimeFn::MakeApplication));
    table.push(signature(RuntimeFn::MakeReturnValues));
    table.push(signature(RuntimeFn::Truthy));
    table.push(signature(RuntimeFn::Store));
    table.push(signature(RuntimeFn::MakeClosure));
    table
}

} // verus!
