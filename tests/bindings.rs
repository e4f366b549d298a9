use std::cell::Cell;
use wasmi_bindings::{
    BindingUnit, FuncDecl, NativeCall, Param, ResolveError, Signature, Trap, Value, ValueTag,
};

fn param(ident: &str, tag: ValueTag) -> Param {
    Param::new(ident.to_string(), tag)
}

fn decl(name: &str, index: usize, params: Vec<Param>, ret: Option<ValueTag>) -> FuncDecl {
    FuncDecl::new(name.to_string(), index, params, ret)
}

/// sub(a: i32, b: i32) -> i32 under ordinal 0; sub3(a, b, c: i64) -> i64
/// under 7; log(x: f64) with no result under 3.
fn unit() -> BindingUnit {
    BindingUnit::new(vec![
        decl(
            "sub",
            0,
            vec![param("a", ValueTag::I32), param("b", ValueTag::I32)],
            Some(ValueTag::I32),
        ),
        decl(
            "sub3",
            7,
            vec![
                param("a", ValueTag::I64),
                param("b", ValueTag::I64),
                param("c", ValueTag::I64),
            ],
            Some(ValueTag::I64),
        ),
        decl("log", 3, vec![param("x", ValueTag::F64)], None),
    ])
}

/// The native side of the tests: counts its calls.
fn native(calls: &Cell<u32>, call: &NativeCall) -> Result<Option<Value>, String> {
    calls.set(calls.get() + 1);
    match (call.index, call.args.as_slice()) {
        (0, [Value::I32(a), Value::I32(b)]) => Ok(Some(Value::I32(a - b))),
        (7, [Value::I64(a), Value::I64(b), Value::I64(c)]) => Ok(Some(Value::I64(a - b - c))),
        (3, [Value::F64(_)]) => Ok(None),
        _ => Err("bad call".to_string()),
    }
}

fn invoke(
    unit: &BindingUnit,
    calls: &Cell<u32>,
    index: usize,
    args: &[Value],
) -> Result<Option<Value>, Trap> {
    let call = unit.prepare_call(index, args)?;
    let outcome = native(calls, &call);
    call.complete(outcome)
}

#[test]
fn signature_follows_parameter_and_result_types() {
    let u = unit();
    let s = u.funcs()[0].signature();
    assert_eq!(s.params(), &[ValueTag::I32, ValueTag::I32]);
    assert_eq!(s.return_type(), Some(ValueTag::I32));
    let s = u.funcs()[1].signature();
    assert_eq!(s.params(), &[ValueTag::I64, ValueTag::I64, ValueTag::I64]);
    assert_eq!(s.return_type(), Some(ValueTag::I64));
}

#[test]
fn signature_of_void_function_has_no_result() {
    let u = unit();
    let s = u.funcs()[2].signature();
    assert_eq!(s.params(), &[ValueTag::F64]);
    assert_eq!(s.return_type(), None);
}

#[test]
fn signature_of_function_without_parameters() {
    let d = decl("tick", 1, vec![], Some(ValueTag::F32));
    let s = d.signature();
    assert!(s.params().is_empty());
    assert_eq!(s.return_type(), Some(ValueTag::F32));
}

#[test]
fn resolve_then_dispatch_round_trip() {
    let u = unit();
    let calls = Cell::new(0);
    let sig = Signature::new(vec![ValueTag::I32, ValueTag::I32], Some(ValueTag::I32));
    let r = u.resolve("sub", &sig).unwrap();
    assert_eq!(r.index(), 0);
    assert!(r.signature().matches(&sig));
    let out = invoke(&u, &calls, r.index(), &[Value::I32(10), Value::I32(3)]).unwrap();
    assert_eq!(out, Some(Value::I32(7)));
    assert_eq!(calls.get(), 1);
}

#[test]
fn resolve_void_function_round_trip() {
    let u = unit();
    let calls = Cell::new(0);
    let sig = Signature::new(vec![ValueTag::F64], None);
    let r = u.resolve("log", &sig).unwrap();
    assert_eq!(r.index(), 3);
    let out = invoke(&u, &calls, r.index(), &[Value::F64(0x3ff0_0000_0000_0000)]).unwrap();
    assert_eq!(out, None);
    assert_eq!(calls.get(), 1);
}

#[test]
fn resolve_rejects_other_arity() {
    let u = unit();
    let sig = Signature::new(vec![ValueTag::I32], Some(ValueTag::I32));
    match u.resolve("sub", &sig) {
        Err(ResolveError::SignatureMismatch { name, expected, requested }) => {
            assert_eq!(name, "sub");
            assert_eq!(expected.params(), &[ValueTag::I32, ValueTag::I32]);
            assert_eq!(requested.params(), &[ValueTag::I32]);
        }
        other => panic!("unexpected {:?}", other),
    }
}

#[test]
fn resolve_rejects_other_parameter_tag() {
    let u = unit();
    let sig = Signature::new(vec![ValueTag::I32, ValueTag::I64], Some(ValueTag::I32));
    let e = u.resolve("sub", &sig).unwrap_err();
    assert!(matches!(e, ResolveError::SignatureMismatch { .. }));
    assert!(!e.is_not_found());
    assert_eq!(e.name(), "sub");
}

#[test]
fn resolve_rejects_other_result_tag() {
    let u = unit();
    let sig = Signature::new(vec![ValueTag::I32, ValueTag::I32], Some(ValueTag::I64));
    assert!(matches!(u.resolve("sub", &sig), Err(ResolveError::SignatureMismatch { .. })));
    let sig = Signature::new(vec![ValueTag::I32, ValueTag::I32], None);
    assert!(matches!(u.resolve("sub", &sig), Err(ResolveError::SignatureMismatch { .. })));
    let sig = Signature::new(vec![ValueTag::F64], Some(ValueTag::F64));
    assert!(matches!(u.resolve("log", &sig), Err(ResolveError::SignatureMismatch { .. })));
}

#[test]
fn resolve_unknown_name_is_not_found() {
    let u = unit();
    let sig = Signature::new(vec![ValueTag::I32, ValueTag::I32], Some(ValueTag::I32));
    match u.resolve("add", &sig) {
        Err(ResolveError::NotFound { name }) => assert_eq!(name, "add"),
        other => panic!("unexpected {:?}", other),
    }
    let e = u.resolve("", &sig).unwrap_err();
    assert!(e.is_not_found());
    assert_eq!(e.name(), "");
}

#[test]
fn resolve_in_empty_unit_is_not_found() {
    let u = BindingUnit::new(vec![]);
    let sig = Signature::new(vec![], None);
    assert!(u.resolve("sub", &sig).unwrap_err().is_not_found());
}

#[test]
fn dispatch_of_unknown_ordinal_calls_nothing() {
    let u = unit();
    let calls = Cell::new(0);
    let r = invoke(&u, &calls, 99, &[Value::I32(1), Value::I32(2)]);
    assert!(matches!(r, Err(Trap::Internal(99))));
    assert!(matches!(u.prepare_call(1, &[]), Err(Trap::Internal(1))));
    assert_eq!(calls.get(), 0);
}

#[test]
fn dispatch_keeps_argument_order() {
    let u = unit();
    let calls = Cell::new(0);
    let out = invoke(&u, &calls, 0, &[Value::I32(3), Value::I32(10)]).unwrap();
    assert_eq!(out, Some(Value::I32(-7)));
    let out = invoke(&u, &calls, 7, &[Value::I64(100), Value::I64(20), Value::I64(3)]).unwrap();
    assert_eq!(out, Some(Value::I64(77)));
    let call = u.prepare_call(7, &[Value::I64(1), Value::I64(2), Value::I64(3)]).unwrap();
    assert_eq!(call.args, vec![Value::I64(1), Value::I64(2), Value::I64(3)]);
    assert_eq!(call.ret, Some(ValueTag::I64));
}

#[test]
fn dispatch_ignores_surplus_arguments() {
    let u = unit();
    let call = u.prepare_call(0, &[Value::I32(5), Value::I32(2), Value::F32(0)]).unwrap();
    assert_eq!(call.index, 0);
    assert_eq!(call.args, vec![Value::I32(5), Value::I32(2)]);
}

#[test]
fn dispatch_with_too_few_arguments_traps() {
    let u = unit();
    let calls = Cell::new(0);
    let r = invoke(&u, &calls, 7, &[Value::I64(1)]);
    assert!(matches!(r, Err(Trap::MissingArgument(1))));
    assert!(matches!(u.prepare_call(0, &[]), Err(Trap::MissingArgument(0))));
    assert_eq!(calls.get(), 0);
}

#[test]
fn dispatch_with_wrong_argument_type_traps() {
    let u = unit();
    let r = u.prepare_call(0, &[Value::I32(1), Value::I64(2)]);
    match r {
        Err(Trap::ArgumentType { position, expected, found }) => {
            assert_eq!(position, 1);
            assert_eq!(expected, ValueTag::I32);
            assert_eq!(found, ValueTag::I64);
        }
        other => panic!("unexpected {:?}", other),
    }
    let r = u.prepare_call(3, &[Value::F32(0)]);
    assert!(matches!(
        r,
        Err(Trap::ArgumentType { position: 0, expected: ValueTag::F64, found: ValueTag::F32 })
    ));
}

#[test]
fn completion_checks_result_type() {
    let u = unit();
    let call = u.prepare_call(0, &[Value::I32(1), Value::I32(2)]).unwrap();
    assert_eq!(call.complete(Ok(Some(Value::I32(9)))).unwrap(), Some(Value::I32(9)));
    match call.complete(Ok(Some(Value::I64(9)))) {
        Err(Trap::ResultType { expected, found }) => {
            assert_eq!(expected, Some(ValueTag::I32));
            assert_eq!(found, Some(ValueTag::I64));
        }
        other => panic!("unexpected {:?}", other),
    }
    assert!(matches!(
        call.complete(Ok(None)),
        Err(Trap::ResultType { expected: Some(ValueTag::I32), found: None })
    ));
    let void_call = u.prepare_call(3, &[Value::F64(0)]).unwrap();
    assert!(matches!(
        void_call.complete(Ok(Some(Value::F64(1)))),
        Err(Trap::ResultType { expected: None, found: Some(ValueTag::F64) })
    ));
}

#[test]
fn completion_passes_native_failure_on() {
    let u = unit();
    let call = u.prepare_call(0, &[Value::I32(1), Value::I32(2)]).unwrap();
    match call.complete(Err("overflow".to_string())) {
        Err(Trap::Host(m)) => assert_eq!(m, "overflow"),
        other => panic!("unexpected {:?}", other),
    }
}

#[test]
fn first_declaration_shadows_later_one() {
    let u = BindingUnit::new(vec![
        decl("f", 1, vec![param("x", ValueTag::I32)], None),
        decl("f", 2, vec![param("x", ValueTag::I32)], None),
    ]);
    let sig = Signature::new(vec![ValueTag::I32], None);
    assert_eq!(u.resolve("f", &sig).unwrap().index(), 1);
    assert_eq!(u.resolve("f", &sig).unwrap().index(), 1);
}

#[test]
fn shadowed_declaration_signature_is_rejected() {
    let u = BindingUnit::new(vec![
        decl("f", 1, vec![param("x", ValueTag::I32)], None),
        decl("f", 2, vec![param("x", ValueTag::I64)], Some(ValueTag::I64)),
    ]);
    let later = Signature::new(vec![ValueTag::I64], Some(ValueTag::I64));
    assert!(matches!(u.resolve("f", &later), Err(ResolveError::SignatureMismatch { .. })));
}

#[test]
fn duplicate_ordinal_dispatches_first_declaration() {
    let u = BindingUnit::new(vec![
        decl("a", 5, vec![param("x", ValueTag::I32)], None),
        decl("b", 5, vec![param("x", ValueTag::I64)], None),
    ]);
    assert!(u.prepare_call(5, &[Value::I32(0)]).is_ok());
    assert!(matches!(u.prepare_call(5, &[Value::I64(0)]), Err(Trap::ArgumentType { .. })));
}

#[test]
fn value_types_of_values() {
    assert_eq!(Value::I32(-1).value_type(), ValueTag::I32);
    assert_eq!(Value::I64(1).value_type(), ValueTag::I64);
    assert_eq!(Value::F32(0x3f80_0000).value_type(), ValueTag::F32);
    assert_eq!(Value::F64(0).value_type(), ValueTag::F64);
}

#[test]
fn signatures_compare_structurally() {
    let a = Signature::new(vec![ValueTag::I32, ValueTag::F32], Some(ValueTag::F64));
    let b = a.duplicate();
    assert!(a.matches(&b));
    assert_eq!(b.params(), &[ValueTag::I32, ValueTag::F32]);
    assert_eq!(b.return_type(), Some(ValueTag::F64));
    assert!(!a.matches(&Signature::new(vec![ValueTag::F32, ValueTag::I32], Some(ValueTag::F64))));
    assert!(!a.matches(&Signature::new(vec![ValueTag::I32, ValueTag::F32], None)));
    assert!(!a.matches(&Signature::new(vec![ValueTag::I32], Some(ValueTag::F64))));
}

#[test]
fn ordinal_lookup_finds_first_position() {
    let u = unit();
    assert_eq!(u.find_ordinal(7), Some(1));
    assert_eq!(u.find_ordinal(4), None);
    assert_eq!(u.find_name(&"log".to_string()), Some(2));
    assert_eq!(u.find_name(&"nope".to_string()), None);
}
