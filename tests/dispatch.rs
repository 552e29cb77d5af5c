use std::cell::RefCell;

use gdcall::call_error::{ArgProblem, CallErrorKind, CallFailure, CallOutcome};
use gdcall::liveness::{ensure_object_alive, ObjectTable};
use gdcall::marshal::{to_ptr_repr, MarshalError, PtrcallType};
use gdcall::signature::{
    format_args, in_ptrcall, in_varcall, out_class_ptrcall, out_class_varcall,
    out_utility_ptrcall_varargs, pack_ptrcall_args,
    pack_varcall_args, type_code, unpack_varcall_args, Signature, MAX_PARAMS,
};
use gdcall::variant::{
    to_variant, ConversionError, InstanceId, NativeType, NativeValue, Variant, VariantType,
};

fn arg(i: usize) -> NativeValue {
    match i % 5 {
        0 => NativeValue::I64(i as i64 * 1000 - 7),
        1 => NativeValue::Str(format!("arg{}", i)),
        2 => NativeValue::Bool(i % 2 == 0),
        3 => NativeValue::I32(-(i as i32)),
        _ => NativeValue::Object(InstanceId { id: 500 + i as u64 }),
    }
}

fn typed_args(n: usize) -> (Signature, Vec<NativeValue>) {
    let args: Vec<NativeValue> = (0..n).map(arg).collect();
    let params = args.iter().map(|a| a.native_type()).collect();
    (Signature::new(params, NativeType::String).unwrap(), args)
}



#[test]
fn arity_dispatch_variadic_every_count() {
    for n in 0..=MAX_PARAMS {
        let (sig, args) = typed_args(n);
        let (buffer, _) = pack_varcall_args(&args, &vec![]);
        let seen = RefCell::new(Vec::new());
        let r = in_varcall(
            &sig,
            &buffer,
            |a: Vec<NativeValue>| {
                *seen.borrow_mut() = a.iter().map(|v| v.duplicate()).collect();
                NativeValue::Str(format!("called with {}", a.len()))
            },
            "target",
        );
        let (ret, outcome) = r.unwrap();
        assert_eq!(outcome.error, CallErrorKind::Success);
        assert_eq!(ret, Variant::Str(format!("called with {}", n)));
        assert_eq!(*seen.borrow(), args);
    }
}

#[test]
fn arity_dispatch_pointer_every_count() {
    for n in 0..=MAX_PARAMS {
        let (sig, args) = typed_args(n);
        let slots = pack_ptrcall_args(&args);
        let seen = RefCell::new(Vec::new());
        let r = in_ptrcall(
            &sig,
            &slots,
            |a: Vec<NativeValue>| {
                *seen.borrow_mut() = a.iter().map(|v| v.duplicate()).collect();
                NativeValue::Str(format!("n={}", a.len()))
            },
            "target",
            PtrcallType::Virtual,
        );
        assert_eq!(r.unwrap(), to_ptr_repr(&NativeValue::Str(format!("n={}", n))));
        assert_eq!(*seen.borrow(), args);
    }
}

#[test]
fn outbound_dispatch_every_count() {
    let objects = ObjectTable::new();
    for n in 0..=MAX_PARAMS {
        let (sig, args) = typed_args(n);
        let r = out_class_varcall(&sig, "f", None, &objects, &args, &vec![], |buf: Vec<Variant>| {
            (Variant::Str(format!("{}", buf.len())), CallOutcome::ok())
        });
        assert_eq!(r.unwrap(), NativeValue::Str(format!("{}", n)));
        let r = out_class_ptrcall(&sig, "f", None, &objects, &args, |slots: Vec<Vec<u8>>| {
            to_ptr_repr(&NativeValue::Str(format!("{}", slots.len())))
        });
        assert_eq!(r.unwrap(), NativeValue::Str(format!("{}", n)));
    }
}

#[test]
fn varargs_follow_explicit_arguments() {
    let args = vec![NativeValue::I32(1), NativeValue::Str("two".to_string())];
    let varargs = vec![Variant::Bool(true), Variant::Nil, Variant::Int(5)];
    let (explicit, all) = pack_varcall_args(&args, &varargs);
    assert_eq!(explicit, vec![Variant::Int(1), Variant::Str("two".to_string())]);
    assert_eq!(
        all,
        vec![
            Variant::Int(1),
            Variant::Str("two".to_string()),
            Variant::Bool(true),
            Variant::Nil,
            Variant::Int(5),
        ]
    );
    let sig = Signature::new(vec![NativeType::I32, NativeType::String], NativeType::I64).unwrap();
    let seen = RefCell::new(Vec::new());
    let r = out_class_varcall(&sig, "f", None, &ObjectTable::new(), &args, &varargs, |buf: Vec<Variant>| {
        *seen.borrow_mut() = buf.iter().map(|v| v.duplicate()).collect();
        (Variant::Int(9), CallOutcome::ok())
    });
    assert_eq!(r.unwrap(), NativeValue::I64(9));
    assert_eq!(*seen.borrow(), all);
}

#[test]
fn stale_handle_stops_the_call() {
    let mut objects = ObjectTable::new();
    let id = InstanceId { id: 41 };
    objects.register(id);
    assert!(objects.is_alive(id));
    assert!(ensure_object_alive(&objects, id, "m").is_ok());
    objects.mark_destroyed(id);
    assert!(!objects.is_alive(id));
    let sig = Signature::new(vec![NativeType::I64], NativeType::Unit).unwrap();
    let args = vec![NativeValue::I64(1)];
    let called = RefCell::new(false);
    let r = out_class_varcall(&sig, "m", Some(id), &objects, &args, &vec![], |_b: Vec<Variant>| {
        *called.borrow_mut() = true;
        (Variant::Nil, CallOutcome::ok())
    });
    match r {
        Err(CallFailure::StaleHandle { method, instance }) => {
            assert_eq!(method, "m");
            assert_eq!(instance, id);
        }
        other => panic!("unexpected {:?}", other),
    }
    let r = out_class_ptrcall(&sig, "m", Some(id), &objects, &args, |_s: Vec<Vec<u8>>| {
        *called.borrow_mut() = true;
        Vec::new()
    });
    assert!(matches!(r, Err(CallFailure::StaleHandle { .. })));
    assert!(!*called.borrow());
}

#[test]
fn live_handle_reaches_the_host() {
    let mut objects = ObjectTable::new();
    let id = InstanceId { id: 7 };
    objects.register(id);
    objects.register(InstanceId { id: 8 });
    objects.mark_destroyed(InstanceId { id: 8 });
    let sig = Signature::new(vec![], NativeType::Bool).unwrap();
    let r = out_class_ptrcall(&sig, "m", Some(id), &objects, &vec![], |_s: Vec<Vec<u8>>| vec![1]);
    assert_eq!(r.unwrap(), NativeValue::Bool(true));
}

#[test]
fn host_failure_is_reported() {
    let sig = Signature::new(vec![NativeType::I64, NativeType::String], NativeType::Unit).unwrap();
    let args = vec![NativeValue::I64(3), NativeValue::Str("x".to_string())];
    let varargs = vec![Variant::Bool(true)];
    let outcome = CallOutcome { error: CallErrorKind::InvalidMethod, argument: 0, expected: 0 };
    let r = out_class_varcall(&sig, "doThing", None, &ObjectTable::new(), &args, &varargs, |_b: Vec<Variant>| {
        (Variant::Nil, outcome)
    });
    match r {
        Err(CallFailure::CallFailed { call, arg_types, .. }) => {
            assert_eq!(call, "doThing(3, \"x\"; varargs true)");
            assert_eq!(arg_types, vec![VariantType::Int, VariantType::String, VariantType::Bool]);
        }
        other => panic!("unexpected {:?}", other),
    }
}

#[test]
fn host_result_of_wrong_type_fails() {
    let sig = Signature::new(vec![], NativeType::I32).unwrap();
    let r = out_class_varcall(&sig, "h", None, &ObjectTable::new(), &vec![], &vec![], |_b: Vec<Variant>| {
        (Variant::Bool(true), CallOutcome::ok())
    });
    match r {
        Err(CallFailure::ResultMismatch { method, return_type, problem }) => {
            assert_eq!(method, "h");
            assert_eq!(return_type, NativeType::I32);
            assert_eq!(
                problem,
                ArgProblem::Conversion(ConversionError::TypeMismatch {
                    expected: VariantType::Int,
                    found: VariantType::Bool
                })
            );
        }
        other => panic!("unexpected {:?}", other),
    }
    let r = out_class_ptrcall(&sig, "h", None, &ObjectTable::new(), &vec![], |_s: Vec<Vec<u8>>| vec![0; 4]);
    assert!(matches!(
        r,
        Err(CallFailure::ResultMismatch {
            problem: ArgProblem::Marshal(MarshalError::WrongSize { len: 4, .. }),
            ..
        })
    ));
}

#[test]
fn inbound_variadic_bad_arguments() {
    let sig = Signature::new(vec![NativeType::I64, NativeType::Bool], NativeType::Unit).unwrap();
    let few = unpack_varcall_args(&sig, &vec![Variant::Int(1)]);
    assert_eq!(
        few,
        Err(CallOutcome { error: CallErrorKind::TooFewArguments, argument: 0, expected: 2 })
    );
    let many = unpack_varcall_args(&sig, &vec![Variant::Int(1), Variant::Bool(true), Variant::Nil]);
    assert_eq!(
        many,
        Err(CallOutcome { error: CallErrorKind::TooManyArguments, argument: 0, expected: 2 })
    );
    let called = RefCell::new(false);
    let r = in_varcall(
        &sig,
        &vec![Variant::Int(1), Variant::Int(2)],
        |_a: Vec<NativeValue>| {
            *called.borrow_mut() = true;
            NativeValue::Unit
        },
        "m",
    );
    let (ret, outcome) = r.unwrap();
    assert_eq!(ret, Variant::Nil);
    assert_eq!(
        outcome,
        CallOutcome { error: CallErrorKind::InvalidArgument, argument: 1, expected: type_code(VariantType::Bool) }
    );
    assert_eq!(type_code(VariantType::Bool), 1);
    assert!(!*called.borrow());
}

#[test]
fn inbound_wrong_return_type_fails() {
    let sig = Signature::new(vec![], NativeType::I64).unwrap();
    let r = in_varcall(&sig, &vec![], |_a: Vec<NativeValue>| NativeValue::Bool(true), "m");
    assert!(matches!(r, Err(CallFailure::ReturnMismatch { found: NativeType::Bool, .. })));
    let r = in_ptrcall(&sig, &vec![], |_a: Vec<NativeValue>| NativeValue::Unit, "m", PtrcallType::Standard);
    assert!(matches!(r, Err(CallFailure::ReturnMismatch { found: NativeType::Unit, .. })));
}

#[test]
fn inbound_pointer_bad_slot_is_fatal() {
    let sig = Signature::new(vec![NativeType::I64, NativeType::Bool], NativeType::Unit).unwrap();
    let slots = vec![to_ptr_repr(&NativeValue::I64(1)), vec![9]];
    let r = in_ptrcall(&sig, &slots, |_a: Vec<NativeValue>| NativeValue::Unit, "m", PtrcallType::Standard);
    match r {
        Err(CallFailure::ParamMismatch { method, index, param_type, problem }) => {
            assert_eq!(method, "m");
            assert_eq!(index, 1);
            assert_eq!(param_type, NativeType::Bool);
            assert_eq!(problem, ArgProblem::Marshal(MarshalError::InvalidRepr { target: NativeType::Bool }));
        }
        other => panic!("unexpected {:?}", other),
    }
}

#[test]
fn signature_metadata() {
    assert!(Signature::new(vec![NativeType::I64; 15], NativeType::Unit).is_none());
    let sig = Signature::new(vec![NativeType::U8, NativeType::Object], NativeType::Unit).unwrap();
    assert_eq!(sig.param_count(), 2);
    let p = sig.param_info(1, "target").unwrap();
    assert_eq!(p.name, "target");
    assert_eq!(p.variant_type, VariantType::Object);
    assert_eq!(p.native_type, NativeType::Object);
    assert!(sig.param_info(2, "x").is_none());
    let p = sig.param_property_info(0, "count");
    assert_eq!(p.variant_type, VariantType::Int);
    assert_eq!(p.native_type, NativeType::U8);
    assert!(sig.return_info().is_none());
    let sig = Signature::new(vec![], NativeType::String).unwrap();
    assert_eq!(sig.return_info().unwrap().variant_type, VariantType::String);
    assert!(sig.accepts(&vec![]));
    assert!(!sig.accepts(&vec![NativeValue::Unit]));
}

#[test]
fn arguments_are_formatted() {
    let args = vec![NativeValue::I32(3), NativeValue::Str("x".to_string()), NativeValue::U8(9)];
    assert_eq!(format_args(&args), "3, \"x\", 9");
    assert_eq!(to_variant(&args[2]), Variant::Int(9));
}

#[test]
fn utility_call_takes_dynamic_arguments() {
    let sig = Signature::new(vec![NativeType::I64], NativeType::I64).unwrap();
    let args = vec![NativeValue::I64(40)];
    let varargs = vec![Variant::Int(2)];
    let r = out_utility_ptrcall_varargs(&sig, "sum", &args, &varargs, |buf: Vec<Variant>| {
        let total: i64 = buf
            .iter()
            .map(|v| match v {
                Variant::Int(i) => *i,
                _ => 0,
            })
            .sum();
        to_ptr_repr(&NativeValue::I64(total))
    });
    assert_eq!(r.unwrap(), NativeValue::I64(42));
    let r = out_utility_ptrcall_varargs(&sig, "sum", &args, &varargs, |_b: Vec<Variant>| vec![1]);
    assert!(matches!(
        r,
        Err(CallFailure::ResultMismatch { problem: ArgProblem::Marshal(MarshalError::WrongSize { len: 1, .. }), .. })
    ));
}
