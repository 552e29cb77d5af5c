use gdcall::call_error::{
    check_varcall_error, describe_failed_call, format_call, join_to_string, param_error,
    return_error, ArgProblem, CallErrorKind, CallFailure, CallOutcome,
};
use gdcall::marshal::MarshalError;
use gdcall::variant::{ConversionError, InstanceId, NativeType, Variant, VariantType};

fn failed(kind: CallErrorKind) -> CallOutcome {
    CallOutcome { error: kind, argument: 1, expected: 4 }
}

#[test]
fn failed_call_is_rendered_with_types() {
    let explicit = vec![Variant::Int(3), Variant::Str("x".to_string())];
    let varargs = vec![Variant::Bool(true)];
    let r = check_varcall_error(&failed(CallErrorKind::InvalidArgument), "doThing", &explicit, &varargs);
    match r {
        Err(CallFailure::CallFailed { outcome, call, arg_types, message }) => {
            assert_eq!(outcome, failed(CallErrorKind::InvalidArgument));
            assert!(call.contains("doThing(3, \"x\"; varargs true)"));
            assert_eq!(arg_types, vec![VariantType::Int, VariantType::String, VariantType::Bool]);
            assert!(message.contains("doThing(3, \"x\"; varargs true)"));
            assert!(message.contains("invalid argument"));
            assert!(message.contains("int, String, bool"));
        }
        other => panic!("unexpected {:?}", other),
    }
}

#[test]
fn success_outcome_is_silent() {
    let ok = CallOutcome::ok();
    let r = check_varcall_error(&ok, "f", &vec![Variant::Int(1)], &vec![]);
    assert!(r.is_ok());
}

#[test]
fn join_renders_each_kind() {
    let list = vec![
        Variant::Nil,
        Variant::Bool(false),
        Variant::Int(-120),
        Variant::Str("a b".to_string()),
        Variant::Object(InstanceId { id: 77 }),
    ];
    assert_eq!(join_to_string(&list), "null, false, -120, \"a b\", <Object#77>");
    assert_eq!(join_to_string(&vec![]), "");
    assert_eq!(join_to_string(&vec![Variant::Int(i64::MIN)]), "-9223372036854775808");
}

#[test]
fn call_without_arguments() {
    assert_eq!(format_call("f", &vec![], &vec![]), "f(; varargs )");
}

#[test]
fn failure_message_lists_status_and_types() {
    let m = describe_failed_call(CallErrorKind::TooFewArguments, "g()", &vec![VariantType::Object]);
    assert_eq!(m, "g() failed: too few arguments; argument types: Object");
}

#[test]
fn param_and_return_errors_name_the_function() {
    let e = ConversionError::TypeMismatch { expected: VariantType::Int, found: VariantType::Nil };
    match param_error("m", 2, NativeType::I64, ArgProblem::Conversion(e)) {
        CallFailure::ParamMismatch { method, index, param_type, problem } => {
            assert_eq!(method, "m");
            assert_eq!(index, 2);
            assert_eq!(param_type, NativeType::I64);
            assert_eq!(problem, ArgProblem::Conversion(e));
        }
        other => panic!("unexpected {:?}", other),
    }
    let me = MarshalError::InvalidRepr { target: NativeType::Bool };
    assert!(matches!(
        param_error("m", 0, NativeType::Bool, ArgProblem::Marshal(me)),
        CallFailure::ParamMismatch { problem: ArgProblem::Marshal(_), .. }
    ));
    match return_error("r", NativeType::String, NativeType::Bool) {
        CallFailure::ReturnMismatch { method, return_type, found } => {
            assert_eq!(method, "r");
            assert_eq!(return_type, NativeType::String);
            assert_eq!(found, NativeType::Bool);
        }
        other => panic!("unexpected {:?}", other),
    }
}
