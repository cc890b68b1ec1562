use jit_runtime::symbols::AbiType::{Bool, Ptr, Void, I32, I64};
use jit_runtime::symbols::{install_runtime, signature, RuntimeFn};

#[test]
fn the_table_names_the_eight_primitives_in_order() {
    let table = install_runtime();
    let names: Vec<&str> = table.iter().map(|s| s.name).collect();
    assert_eq!(
        names,
        vec![
            "alloc_undef_val",
            "drop_values",
            "i64_to_number",
            "make_application",
            "make_return_values",
            "truthy",
            "store",
            "make_closure",
        ]
    );
}

#[test]
fn each_primitive_has_its_signature() {
    let s = signature(RuntimeFn::AllocUndefVal);
    assert_eq!((s.params, s.result), (vec![], Ptr));
    let s = signature(RuntimeFn::DropValues);
    assert_eq!((s.params, s.result), (vec![Ptr, I32], Void));
    let s = signature(RuntimeFn::I64ToNumber);
    assert_eq!((s.params, s.result), (vec![I64], Ptr));
    let s = signature(RuntimeFn::MakeApplication);
    assert_eq!((s.params, s.result), (vec![Ptr, Ptr, I32], Ptr));
    let s = signature(RuntimeFn::MakeReturnValues);
    assert_eq!((s.params, s.result), (vec![Ptr, I32], Ptr));
    let s = signature(RuntimeFn::Truthy);
    assert_eq!((s.params, s.result), (vec![Ptr], Bool));
    let s = signature(RuntimeFn::Store);
    assert_eq!((s.params, s.result), (vec![Ptr, Ptr], Void));
    let s = signature(RuntimeFn::MakeClosure);
    assert_eq!((s.params, s.result), (vec![Ptr, I32, Ptr, I32, Ptr], Ptr));
}

#[test]
fn the_table_agrees_with_the_single_declarations() {
    let table = install_runtime();
    let all = [
        RuntimeFn::AllocUndefVal,
        RuntimeFn::DropValues,
        RuntimeFn::I64ToNumber,
        RuntimeFn::MakeApplication,
        RuntimeFn::MakeReturnValues,
        RuntimeFn::Truthy,
        RuntimeFn::Store,
        RuntimeFn::MakeClosure,
    ];
    assert_eq!(table.len(), all.len());
    for (entry, f) in table.iter().zip(all) {
        assert_eq!(entry.function, f);
        assert_eq!(*entry, signature(f));
    }
}
