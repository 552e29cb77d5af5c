//! Call outcomes reported by the host, the failures of this layer, and the
//! text that describes a failed call.
use vstd::prelude::*;
use crate::variant::{ConversionError, InstanceId, NativeType, Variant, VariantType, variant_type_of};
use crate::marshal::MarshalError;

verus! {

/// The status codes that the host reports after a variadic call.
#[derive(Clone, Copy, Debug, PartialEq, Eq, Structural)]
pub enum CallErrorKind {
    Success,
    InvalidMethod,
    InvalidArgument,
    TooManyArguments,
    TooFewArguments,
    InstanceIsNull,
    MethodNotConst,
}

/// Status of a variadic call, with the offending argument index and the
/// expected tag or count where the status names one.
#[derive(Clone, Copy, Debug, PartialEq, Eq, Structural)]
pub struct CallOutcome {
    pub error: CallErrorKind,
    pub argument: i32,
    pub expected: i32,
}

impl CallOutcome {
    /// The outcome of a call that succeeded.
    pub fn ok() -> (r: CallOutcome)
        ensures
            r.error == CallErrorKind::Success,
            r.argument == 0,
            r.expected == 0,
    {
        CallOutcome { error: CallErrorKind::Success, argument: 0, expected: 0 }
    }
}

/// Why an argument could not be taken from its slot.
#[derive(Clone, Copy, Debug, PartialEq, Eq, Structural)]
pub enum ArgProblem {
    Conversion(ConversionError),
    Marshal(MarshalError),
}

/// A failure that ends the call; none of them is meant to be branched on by
/// callers, they describe a bug to fix.
#[derive(Debug)]
pub enum CallFailure {
    /// A parameter slot does not hold a value of the declared type.
    ParamMismatch { method: String, index: usize, param_type: NativeType, problem: ArgProblem },
    /// The target function produced a value of another type than the declared return type.
    ReturnMismatch { method: String, return_type: NativeType, found: NativeType },
    /// The value that a call produced does not convert to the declared return type.
    ResultMismatch { method: String, return_type: NativeType, problem: ArgProblem },
    /// The call went through a handle whose object the host has destroyed.
    StaleHandle { method: String, instance: InstanceId },
    /// The host reported a failed variadic call.
    CallFailed { outcome: CallOutcome, call: String, arg_types: Vec<VariantType>, message: String },
}

/// The decimal digits of `n`.
pub open spec fn digits(n: nat) -> Seq<char>
    decreases n,
{
    let d = n % 10;
    let c = if d == 0 { '0' } else if d == 1 { '1' } else if d == 2 { '2' } else if d == 3 {
        '3'
    } else if d == 4 { '4' } else if d == 5 { '5' } else if d == 6 { '6' } else if d == 7 {
        '7'
    } else if d == 8 { '8' } else { '9' };
    if n < 10 {
        seq![c]
    } else {
        digits(n / 10) + seq![c]
    }
}

/// The decimal text of `i`, with a leading `-` when it is negative.
pub open spec fn decimal(i: int) -> Seq<char> {
    if i < 0 {
        seq!['-'] + digits((-i) as nat)
    } else {
        digits(i as nat)
    }
}

/// How a dynamic value is shown in a diagnostic.
pub open spec fn render_variant(v: Variant) -> Seq<char> {
    match v {
        Variant::Nil => "null"@,
        Variant::Bool(b) => if b { "true"@ } else { "false"@ },
        Variant::Int(i) => decimal(i as int),
        Variant::Str(s) => "\""@ + s@ + "\""@,
        Variant::Object(id) => "<Object#"@ + decimal(id.id as int) + ">"@,
    }
}

/// The rendered values, separated by `", "`.
pub open spec fn join_spec(list: Seq<Variant>) -> Seq<char>
    decreases list.len(),
{
    if list.len() == 0 {
        Seq::empty()
    } else if list.len() == 1 {
        render_variant(list[0])
    } else {
        join_spec(list.drop_last()) + ", "@ + render_variant(list.last())
    }
}

/// The text of a call: `name(explicit arguments; varargs trailing arguments)`.
pub open spec fn render_call(name: Seq<char>, explicit: Seq<Variant>, varargs: Seq<Variant>) -> Seq<
    char,
> {
    name + "("@ + join_spec(explicit) + "; varargs "@ + join_spec(varargs) + ")"@
}

/// The tags of the explicit arguments followed by those of the trailing ones.
pub open spec fn arg_types_spec(explicit: Seq<Variant>, varargs: Seq<Variant>) -> Seq<VariantType> {
    (explicit + varargs).map_values(|v: Variant| variant_type_of(v))
}

/// Relies on std's `ToString` for `i128`: the decimal text of the integer.
#[verifier::external_body]
fn decimal_text(i: i128) -> (r: String)
    ensures
        r@ == decimal(i as int),
{
    i.to_string()
}

fn render_into(out: &mut String, v: &Variant)
    ensures
        final(out)@ == old(out)@ + render_variant(*v),
{
    match v {
        Variant::Nil => out.append("null"),
        Variant::Bool(b) => if *b {
            out.append("true")
        } else {
            out.append("false")
        },
        Variant::Int(i) => {
            let t = decimal_text(*i as i128);
            out.append(t.as_str());
        },
        Variant::Str(s) => {
            out.append("\"");
            out.append(s.as_str());
            out.append("\"");
        },
        Variant::Object(id) => {
            let t = decimal_text(id.id as i128);
            out.append("<Object#");
            out.append(t.as_str());
            out.append(">");
        },
    }
}

fn join_into(out: &mut String, list: &Vec<Variant>)
    ensures
        final(out)@ == old(out)@ + join_spec(list@),
{
    let ghost start = out@;
    let mut i: usize = 0;
    while i < list.len()
        invariant
            i <= list@.len(),
            out@ == start + join_spec(list@.subrange(0, i as int)),
        decreases list.len() - i,
    {
        let ghost prev = list@.subrange(0, i as int);
        if i > 0 {
            out.append(", ");
        }
        render_into(out, &list[i]);
        proof {
            let next = list@.subrange(0, i + 1);
            assert(next.drop_last() =~= prev);
            assert(next.last() == list@[i as int]);
            if i == 0 {
                assert(next.len() == 1);
            }
        }
        i = i + 1;
    }
    assert(list@.subrange(0, list@.len() as int) =~= list@);
}

/// The values of `list` as diagnostic text, separated by `", "`.
pub fn join_to_string(list: &Vec<Variant>) -> (r: String)
    ensures
        r@ == join_spec(list@),
{
    let mut r = String::new();
    join_into(&mut r, list);
    r
}

/// Renders a call as `name(explicit arguments; varargs trailing arguments)`.
pub fn format_call(fn_name: &str, explicit_args: &Vec<Variant>, varargs: &Vec<Variant>) -> (r: String)
    ensures
        r@ == render_call(fn_name@, explicit_args@, varargs@),
{
    let mut r = String::from_str(fn_name);
    r.append("(");
    join_into(&mut r, explicit_args);
    r.append("; varargs ");
    join_into(&mut r, varargs);
    r.append(")");
    r
}

/// The tags of all arguments of a call, explicit ones first.
pub fn argument_types(explicit_args: &Vec<Variant>, varargs: &Vec<Variant>) -> (r: Vec<VariantType>)
    ensures
        r@ == arg_types_spec(explicit_args@, varargs@),
{
    let mut r: Vec<VariantType> = Vec::new();
    let mut i: usize = 0;
    while i < explicit_args.len()
        invariant
            i <= explicit_args@.len(),
            r@ =~= explicit_args@.subrange(0, i as int).map_values(|v: Variant| variant_type_of(v)),
        decreases explicit_args.len() - i,
    {
        r.push(explicit_args[i].get_type());
        i = i + 1;
    }
    let mut j: usize = 0;
    while j < varargs.len()
        invariant
            j <= varargs@.len(),
            r@ =~= (explicit_args@ + varargs@.subrange(0, j as int)).map_values(
                |v: Variant| variant_type_of(v),
            ),
        decreases varargs.len() - j,
    {
        r.push(varargs[j].get_type());
        j = j + 1;
    }
    assert(varargs@.subrange(0, varargs@.len() as int) =~= varargs@);
    r
}

/// Checks the outcome of a variadic call. Success gives `Ok`; any other status
/// gives the failure with the rendered call and the tag of every argument.
pub fn check_varcall_error(
    err: &CallOutcome,
    fn_name: &str,
    explicit_args: &Vec<Variant>,
    varargs: &Vec<Variant>,
) -> (r: Result<(), CallFailure>)
    ensures
        err.error == CallErrorKind::Success <==> r is Ok,
        r matches Err(f) ==> (f matches CallFailure::CallFailed { outcome, call, arg_types, message }
            && outcome == *err && call@ == render_call(fn_name@, explicit_args@, varargs@)
            && arg_types@ == arg_types_spec(explicit_args@, varargs@) && message@ == failure_message(
            err.error,
            call@,
            arg_types@,
        )),
{
    if err.error == CallErrorKind::Success {
        return Ok(());
    }
    let arg_types = argument_types(explicit_args, varargs);
    let call = format_call(fn_name, explicit_args, varargs);
    let message = describe_failed_call(err.error, call.as_str(), &arg_types);
    Err(CallFailure::CallFailed { outcome: *err, call, arg_types, message })
}

/// The failure of a parameter slot that does not hold a value of its declared type.
pub fn param_error(method_name: &str, index: usize, param_type: NativeType, problem: ArgProblem) -> (r:
    CallFailure)
    ensures
        r matches CallFailure::ParamMismatch { method, index: i, param_type: t, problem: p } && method@
            == method_name@ && i == index && t == param_type && p == problem,
{
    CallFailure::ParamMismatch { method: String::from_str(method_name), index, param_type, problem }
}

/// The failure of a target function whose result is not of the declared return type.
pub fn return_error(method_name: &str, return_type: NativeType, found: NativeType) -> (r: CallFailure)
    ensures
        r matches CallFailure::ReturnMismatch { method, return_type: t, found: f } && method@
            == method_name@ && t == return_type && f == found,
{
    CallFailure::ReturnMismatch { method: String::from_str(method_name), return_type, found }
}

/// The name of a tag in diagnostics.
pub open spec fn tag_name(t: VariantType) -> Seq<char> {
    match t {
        VariantType::Nil => "Nil"@,
        VariantType::Bool => "bool"@,
        VariantType::Int => "int"@,
        VariantType::String => "String"@,
        VariantType::Object => "Object"@,
    }
}

/// The name of a call status in diagnostics.
pub open spec fn error_name(k: CallErrorKind) -> Seq<char> {
    match k {
        CallErrorKind::Success => "success"@,
        CallErrorKind::InvalidMethod => "invalid method"@,
        CallErrorKind::InvalidArgument => "invalid argument"@,
        CallErrorKind::TooManyArguments => "too many arguments"@,
        CallErrorKind::TooFewArguments => "too few arguments"@,
        CallErrorKind::InstanceIsNull => "instance is null"@,
        CallErrorKind::MethodNotConst => "method not const"@,
    }
}

/// The tag names, separated by `", "`.
pub open spec fn join_types(list: Seq<VariantType>) -> Seq<char>
    decreases list.len(),
{
    if list.len() == 0 {
        Seq::empty()
    } else if list.len() == 1 {
        tag_name(list[0])
    } else {
        join_types(list.drop_last()) + ", "@ + tag_name(list.last())
    }
}

/// The diagnostic of a failed variadic call.
pub open spec fn failure_message(kind: CallErrorKind, call: Seq<char>, arg_types: Seq<VariantType>) -> Seq<char> {
    call + " failed: "@ + error_name(kind) + "; argument types: "@ + join_types(arg_types)
}

fn tag_name_into(out: &mut String, t: VariantType)
    ensures
        final(out)@ == old(out)@ + tag_name(t),
{
    match t {
        VariantType::Nil => out.append("Nil"),
        VariantType::Bool => out.append("bool"),
        VariantType::Int => out.append("int"),
        VariantType::String => out.append("String"),
        VariantType::Object => out.append("Object"),
    }
}

fn error_name_into(out: &mut String, k: CallErrorKind)
    ensures
        final(out)@ == old(out)@ + error_name(k),
{
    match k {
        CallErrorKind::Success => out.append("success"),
        CallErrorKind::InvalidMethod => out.append("invalid method"),
        CallErrorKind::InvalidArgument => out.append("invalid argument"),
        CallErrorKind::TooManyArguments => out.append("too many arguments"),
        CallErrorKind::TooFewArguments => out.append("too few arguments"),
        CallErrorKind::InstanceIsNull => out.append("instance is null"),
        CallErrorKind::MethodNotConst => out.append("method not const"),
    }
}

/// The diagnostic of a failed variadic call: the rendered call, the status and
/// the tag of every argument.
pub fn describe_failed_call(kind: CallErrorKind, call: &str, arg_types: &Vec<VariantType>) -> (r: String)
    ensures
        r@ == failure_message(kind, call@, arg_types@),
{
    let mut r = String::from_str(call);
    r.append(" failed: ");
    error_name_into(&mut r, kind);
    r.append("; argument types: ");
    let ghost start = r@;
    let mut i: usize = 0;
    while i < arg_types.len()
        invariant
            i <= arg_types@.len(),
            r@ == start + join_types(arg_types@.subrange(0, i as int)),
        decreases arg_types.len() - i,
    {
        let ghost prev = arg_types@.subrange(0, i as int);
        if i > 0 {
            r.append(", ");
        }
        tag_name_into(&mut r, arg_types[i]);
        proof {
            let next = arg_types@.subrange(0, i + 1);
            assert(next.drop_last() =~= prev);
        }
        i = i + 1;
    }
    assert(arg_types@.subrange(0, arg_types@.len() as int) =~= arg_types@);
    r
}

} // verus!
