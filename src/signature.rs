//! Call signatures of any arity up to `MAX_PARAMS`: parameter metadata, the
//! inbound entry points of both conventions and outbound dispatch.
use vstd::prelude::*;
use crate::variant::{
    ConversionError, InstanceId, NativeType, NativeValue, Variant, VariantType, from_variant_spec,
    lemma_variant_round_trip, native_type_of, tag_of, to_variant, to_variant_spec,
    try_from_variant, variant_tag,
};
use crate::marshal::{
    MarshalError, PtrcallType, lemma_ptr_round_trip, ptr_read_spec, ptr_repr_spec, same_native,
    to_ptr_repr, try_from_ptr_repr,
};
use crate::call_error::{
    ArgProblem, CallErrorKind, CallFailure, CallOutcome, arg_types_spec, check_varcall_error,
    failure_message, join_spec, join_to_string, param_error, render_call, return_error,
};
use crate::liveness::{ObjectTable, ensure_object_alive};

verus! {

/// The largest number of parameters a signature can have.
pub const MAX_PARAMS: usize = 14;

/// The ordered parameter types and the return type of a function.
pub struct Signature {
    pub params: Vec<NativeType>,
    pub ret: NativeType,
}

/// Metadata of a parameter or return slot, as shown to the host.
#[derive(Debug)]
pub struct PropertyInfo {
    pub name: String,
    pub variant_type: VariantType,
    pub native_type: NativeType,
}

/// The host's numeric code of a tag.
pub open spec fn type_code_spec(t: VariantType) -> i32 {
    match t {
        VariantType::Nil => 0,
        VariantType::Bool => 1,
        VariantType::Int => 2,
        VariantType::String => 4,
        VariantType::Object => 24,
    }
}

/// The host's numeric code of a tag.
pub fn type_code(t: VariantType) -> (r: i32)
    ensures
        r == type_code_spec(t),
{
    match t {
        VariantType::Nil => 0,
        VariantType::Bool => 1,
        VariantType::Int => 2,
        VariantType::String => 4,
        VariantType::Object => 24,
    }
}

/// Every argument is a value of the parameter type at its position.
pub open spec fn args_typed(params: Seq<NativeType>, args: Seq<NativeValue>) -> bool {
    &&& args.len() == params.len()
    &&& forall|i: int| 0 <= i < args.len() ==> native_type_of(#[trigger] args[i]) == params[i]
}

/// Every dynamic argument converts to the parameter type at its position.
pub open spec fn all_convert(params: Seq<NativeType>, args: Seq<Variant>) -> bool {
    &&& args.len() == params.len()
    &&& forall|i: int| 0 <= i < args.len() ==> (#[trigger] from_variant_spec(args[i], params[i])) is Ok
}

/// The native arguments that dynamic arguments convert to.
pub open spec fn unpacked_args(params: Seq<NativeType>, args: Seq<Variant>) -> Seq<NativeValue> {
    Seq::new(args.len(), |i: int| from_variant_spec(args[i], params[i])->Ok_0)
}

/// The dynamic values of native arguments.
pub open spec fn packed_args(args: Seq<NativeValue>) -> Seq<Variant> {
    args.map_values(|v: NativeValue| to_variant_spec(v))
}

/// `i` is the first position whose dynamic argument does not convert.
pub open spec fn first_unconvertible(params: Seq<NativeType>, args: Seq<Variant>, i: int) -> bool {
    &&& 0 <= i < args.len()
    &&& from_variant_spec(args[i], params[i]) is Err
    &&& forall|j: int| 0 <= j < i ==> (#[trigger] from_variant_spec(args[j], params[j])) is Ok
}

/// The outcome `o` that rejects the dynamic arguments `args`: a wrong count,
/// or else the first argument that does not convert, with the tag expected there.
pub open spec fn varcall_rejection(params: Seq<NativeType>, args: Seq<Variant>, o: CallOutcome) -> bool {
    if args.len() < params.len() {
        o == CallOutcome { error: CallErrorKind::TooFewArguments, argument: 0, expected: params.len() as i32 }
    } else if args.len() > params.len() {
        o == CallOutcome { error: CallErrorKind::TooManyArguments, argument: 0, expected: params.len() as i32 }
    } else {
        &&& o.error == CallErrorKind::InvalidArgument
        &&& first_unconvertible(params, args, o.argument as int)
        &&& o.expected == type_code_spec(tag_of(params[o.argument as int]))
    }
}

/// The native arguments `v` are what the slots `args` hold under the pointer convention.
pub open spec fn ptr_args_read(
    params: Seq<NativeType>,
    args: Seq<Vec<u8>>,
    call_type: PtrcallType,
    v: Seq<NativeValue>,
) -> bool {
    &&& v.len() == args.len()
    &&& forall|i: int|
        0 <= i < args.len() ==> ptr_read_spec(
            (#[trigger] args[i])@,
            params[i],
            call_type,
            Ok::<NativeValue, MarshalError>(v[i]),
        )
}

impl Signature {
    /// At most `MAX_PARAMS` parameters.
    pub open spec fn wf(&self) -> bool {
        self.params@.len() <= MAX_PARAMS
    }

    /// A signature, if there are no more than `MAX_PARAMS` parameters.
    pub fn new(params: Vec<NativeType>, ret: NativeType) -> (r: Option<Signature>)
        ensures
            r is Some <==> params@.len() <= MAX_PARAMS,
            r matches Some(s) ==> s.params@ == params@ && s.ret == ret && s.wf(),
    {
        if params.len() <= MAX_PARAMS {
            Some(Signature { params, ret })
        } else {
            None
        }
    }

    /// The number of parameters.
    pub fn param_count(&self) -> (r: usize)
        ensures
            r == self.params@.len(),
    {
        self.params.len()
    }

    /// Metadata of parameter `index` under the name `param_name`; the index
    /// must be one of the signature's.
    pub fn param_property_info(&self, index: usize, param_name: &str) -> (r: PropertyInfo)
        requires
            index < self.params@.len(),
        ensures
            r.name@ == param_name@,
            r.native_type == self.params@[index as int],
            r.variant_type == tag_of(self.params@[index as int]),
    {
        let t = self.params[index];
        PropertyInfo { name: String::from_str(param_name), variant_type: variant_tag(t), native_type: t }
    }

    /// Metadata of parameter `index` under the name `param_name`, or `None`
    /// where the signature has no such parameter.
    pub fn param_info(&self, index: usize, param_name: &str) -> (r: Option<PropertyInfo>)
        ensures
            r is Some <==> index < self.params@.len(),
            r matches Some(p) ==> p.name@ == param_name@ && p.native_type == self.params@[index as int]
                && p.variant_type == tag_of(self.params@[index as int]),
    {
        if index < self.params.len() {
            Some(self.param_property_info(index, param_name))
        } else {
            None
        }
    }

    /// Metadata of the return slot, or `None` where the function returns no value.
    pub fn return_info(&self) -> (r: Option<PropertyInfo>)
        ensures
            r is Some <==> self.ret != NativeType::Unit,
            r matches Some(p) ==> p.name@ == Seq::<char>::empty() && p.native_type == self.ret
                && p.variant_type == tag_of(self.ret),
    {
        if self.ret == NativeType::Unit {
            None
        } else {
            Some(PropertyInfo { name: String::new(), variant_type: variant_tag(self.ret), native_type: self.ret })
        }
    }

    /// Whether `args` are values of the parameter types, in order.
    pub fn accepts(&self, args: &Vec<NativeValue>) -> (r: bool)
        ensures
            r == args_typed(self.params@, args@),
    {
        if args.len() != self.params.len() {
            return false;
        }
        let mut i: usize = 0;
        while i < args.len()
            invariant
                args@.len() == self.params@.len(),
                i <= args@.len(),
                forall|j: int| 0 <= j < i ==> native_type_of(#[trigger] args@[j]) == self.params@[j],
            decreases args.len() - i,
        {
            if args[i].native_type() != self.params[i] {
                return false;
            }
            i = i + 1;
        }
        true
    }
}

/// Converts the dynamic arguments of an inbound variadic call to native
/// arguments. A wrong count, or the first argument that does not convert, gives
/// the outcome that the host expects for it.
pub fn unpack_varcall_args(sig: &Signature, args: &Vec<Variant>) -> (r: Result<Vec<NativeValue>, CallOutcome>)
    requires
        sig.wf(),
    ensures
        r is Ok <==> all_convert(sig.params@, args@),
        r matches Ok(v) ==> v@ == unpacked_args(sig.params@, args@),
        r matches Err(o) ==> varcall_rejection(sig.params@, args@, o),
{
    let n = sig.params.len();
    if args.len() < n {
        return Err(CallOutcome { error: CallErrorKind::TooFewArguments, argument: 0, expected: n as i32 });
    }
    if args.len() > n {
        return Err(CallOutcome { error: CallErrorKind::TooManyArguments, argument: 0, expected: n as i32 });
    }
    let mut out: Vec<NativeValue> = Vec::new();
    let mut i: usize = 0;
    while i < n
        invariant
            n == sig.params@.len(),
            n == args@.len(),
            n <= MAX_PARAMS,
            i <= n,
            out@ == unpacked_args(sig.params@, args@).subrange(0, i as int),
            forall|j: int| 0 <= j < i ==> (#[trigger] from_variant_spec(args@[j], sig.params@[j])) is Ok,
        decreases n - i,
    {
        match try_from_variant(&args[i], sig.params[i]) {
            Ok(v) => {
                out.push(v);
                assert(out@ =~= unpacked_args(sig.params@, args@).subrange(0, i + 1));
            },
            Err(_) => {
                let expected = type_code(variant_tag(sig.params[i]));
                return Err(CallOutcome { error: CallErrorKind::InvalidArgument, argument: i as i32, expected });
            },
        }
        i = i + 1;
    }
    assert(out@ =~= unpacked_args(sig.params@, args@));
    Ok(out)
}

/// Handles an inbound variadic call: converts the arguments, calls `func` on
/// them and converts its result to the dynamic value for the output slot,
/// beside a success outcome. Arguments that do not fit give no call, a nil
/// result and the outcome of `unpack_varcall_args`. A result of another type
/// than the declared one is a registration bug and fails the call.
pub fn in_varcall<F: Fn(Vec<NativeValue>) -> NativeValue>(
    sig: &Signature,
    args: &Vec<Variant>,
    func: F,
    method_name: &str,
) -> (r: Result<(Variant, CallOutcome), CallFailure>)
    requires
        sig.wf(),
        forall|a: Vec<NativeValue>| func.requires((a,)),
    ensures
        !all_convert(sig.params@, args@) ==> (r matches Ok((ret, o)) && ret == Variant::Nil
            && varcall_rejection(sig.params@, args@, o)),
        all_convert(sig.params@, args@) ==> exists|a: Vec<NativeValue>, v: NativeValue|
            a@ == unpacked_args(sig.params@, args@) && #[trigger] func.ensures((a,), v) && (if native_type_of(v)
                == sig.ret {
                r == Ok::<(Variant, CallOutcome), CallFailure>(
                    (to_variant_spec(v), CallOutcome { error: CallErrorKind::Success, argument: 0, expected: 0 }),
                )
            } else {
                r matches Err(CallFailure::ReturnMismatch { method, return_type, found }) && method@
                    == method_name@ && return_type == sig.ret && found == native_type_of(v)
            }),
{
    match unpack_varcall_args(sig, args) {
        Err(o) => Ok((Variant::Nil, o)),
        Ok(a) => {
            let ghost a0 = a;
            let v = func(a);
            let found = v.native_type();
            if found != sig.ret {
                return Err(return_error(method_name, sig.ret, found));
            }
            let ret = to_variant(&v);
            let r = Ok((ret, CallOutcome::ok()));
            assert(func.ensures((a0,), v));
            r
        },
    }
}

/// Reads the slots of an inbound pointer call as native arguments; a slot that
/// does not hold its parameter type is a registration bug and fails the call.
pub fn unpack_ptrcall_args(
    sig: &Signature,
    args: &Vec<Vec<u8>>,
    call_type: PtrcallType,
    method_name: &str,
) -> (r: Result<Vec<NativeValue>, CallFailure>)
    requires
        sig.wf(),
        args@.len() == sig.params@.len(),
    ensures
        r matches Ok(v) ==> ptr_args_read(sig.params@, args@, call_type, v@),
        r matches Err(f) ==> (f matches CallFailure::ParamMismatch { method, index, param_type, problem }
            && method@ == method_name@ && index < args@.len() && param_type == sig.params@[index as int]
            && (problem matches ArgProblem::Marshal(e) && ptr_read_spec(
            args@[index as int]@,
            param_type,
            call_type,
            Err(e),
        ))),
{
    let n = sig.params.len();
    let mut out: Vec<NativeValue> = Vec::new();
    let mut i: usize = 0;
    while i < n
        invariant
            n == sig.params@.len(),
            n == args@.len(),
            i <= n,
            out@.len() == i,
            forall|j: int|
                0 <= j < i ==> ptr_read_spec(
                    (#[trigger] args@[j])@,
                    sig.params@[j],
                    call_type,
                    Ok::<NativeValue, MarshalError>(out@[j]),
                ),
        decreases n - i,
    {
        match try_from_ptr_repr(&args[i], sig.params[i], call_type) {
            Ok(v) => {
                out.push(v);
            },
            Err(e) => {
                let f = param_error(method_name, i, sig.params[i], ArgProblem::Marshal(e));
                assert(ptr_read_spec(args@[i as int]@, sig.params@[i as int], call_type, Err(e)));
                return Err(f);
            },
        }
        i = i + 1;
    }
    Ok(out)
}

/// Handles an inbound pointer call: reads the argument slots, calls `func` on
/// the arguments and writes its result into the bytes of the return slot.
pub fn in_ptrcall<F: Fn(Vec<NativeValue>) -> NativeValue>(
    sig: &Signature,
    args: &Vec<Vec<u8>>,
    func: F,
    method_name: &str,
    call_type: PtrcallType,
) -> (r: Result<Vec<u8>, CallFailure>)
    requires
        sig.wf(),
        args@.len() == sig.params@.len(),
        forall|a: Vec<NativeValue>| func.requires((a,)),
    ensures
        r matches Ok(ret) ==> exists|a: Vec<NativeValue>, v: NativeValue|
            ptr_args_read(sig.params@, args@, call_type, a@) && #[trigger] func.ensures((a,), v)
                && native_type_of(v) == sig.ret && ret@ == ptr_repr_spec(v),
        (forall|a: Vec<NativeValue>, v: NativeValue|
            ptr_args_read(sig.params@, args@, call_type, a@) && #[trigger] func.ensures((a,), v)
                ==> native_type_of(v) == sig.ret) && (exists|a: Seq<NativeValue>| ptr_args_read(sig.params@, args@, call_type, a)) ==> r is Ok,
{
    let a = unpack_ptrcall_args(sig, args, call_type, method_name)?;
    let ghost a0 = a;
    let v = func(a);
    let found = v.native_type();
    if found != sig.ret {
        return Err(return_error(method_name, sig.ret, found));
    }
    let ret = to_ptr_repr(&v);
    assert(func.ensures((a0,), v));
    Ok(ret)
}

/// `r` is what reading the return slot bytes `b` as `ret_type` gives to a
/// call of `method_name`: the value, or the failure that names the problem.
pub open spec fn ptr_result(
    b: Seq<u8>,
    ret_type: NativeType,
    method_name: Seq<char>,
    r: Result<NativeValue, CallFailure>,
) -> bool {
    &&& r matches Ok(v) ==> ptr_read_spec(b, ret_type, PtrcallType::Standard, Ok::<NativeValue, MarshalError>(v))
    &&& r matches Err(f) ==> (f matches CallFailure::ResultMismatch { method, return_type, problem }
        && method@ == method_name && return_type == ret_type && (problem matches ArgProblem::Marshal(e)
        && ptr_read_spec(b, ret_type, PtrcallType::Standard, Err(e))))
}

fn read_ptr_result(sig: &Signature, method_name: &str, ret: &Vec<u8>) -> (r: Result<NativeValue, CallFailure>)
    ensures
        ptr_result(ret@, sig.ret, method_name@, r),
{
    match try_from_ptr_repr(ret, sig.ret, PtrcallType::Standard) {
        Ok(v) => Ok(v),
        Err(e) => Err(
            CallFailure::ResultMismatch {
                method: String::from_str(method_name),
                return_type: sig.ret,
                problem: ArgProblem::Marshal(e),
            },
        ),
    }
}

/// The dynamic values of the explicit arguments, and the call buffer: those
/// values followed by the trailing ones, in order.
pub fn pack_varcall_args(args: &Vec<NativeValue>, varargs: &Vec<Variant>) -> (r: (Vec<Variant>, Vec<Variant>))
    ensures
        r.0@ == packed_args(args@),
        r.1@ == packed_args(args@) + varargs@,
{
    let mut explicit: Vec<Variant> = Vec::new();
    let mut all: Vec<Variant> = Vec::new();
    let mut i: usize = 0;
    while i < args.len()
        invariant
            i <= args@.len(),
            explicit@ =~= packed_args(args@.subrange(0, i as int)),
            all@ == explicit@,
        decreases args.len() - i,
    {
        explicit.push(to_variant(&args[i]));
        all.push(to_variant(&args[i]));
        assert(args@.subrange(0, i + 1) =~= args@.subrange(0, i as int).push(args@[i as int]));
        i = i + 1;
    }
    assert(args@.subrange(0, args@.len() as int) =~= args@);
    let mut j: usize = 0;
    while j < varargs.len()
        invariant
            j <= varargs@.len(),
            explicit@ == packed_args(args@),
            all@ =~= explicit@ + varargs@.subrange(0, j as int),
        decreases varargs.len() - j,
    {
        all.push(varargs[j].duplicate());
        j = j + 1;
    }
    assert(varargs@.subrange(0, varargs@.len() as int) =~= varargs@);
    (explicit, all)
}

/// The explicit arguments as diagnostic text.
pub fn format_args(args: &Vec<NativeValue>) -> (r: String)
    ensures
        r@ == join_spec(packed_args(args@)),
{
    let (explicit, _) = pack_varcall_args(args, &Vec::new());
    join_to_string(&explicit)
}

/// The slot bytes of native arguments, in order.
pub fn pack_ptrcall_args(args: &Vec<NativeValue>) -> (r: Vec<Vec<u8>>)
    ensures
        r@.len() == args@.len(),
        forall|i: int| 0 <= i < args@.len() ==> (#[trigger] r@[i])@ == ptr_repr_spec(args@[i]),
{
    let mut r: Vec<Vec<u8>> = Vec::new();
    let mut i: usize = 0;
    while i < args.len()
        invariant
            i <= args@.len(),
            r@.len() == i,
            forall|j: int| 0 <= j < i ==> (#[trigger] r@[j])@ == ptr_repr_spec(args@[j]),
        decreases args.len() - i,
    {
        r.push(to_ptr_repr(&args[i]));
        i = i + 1;
    }
    r
}

/// Calls a host method or function through the variadic convention. A call
/// through a handle (`target`) first checks that the object lives; a destroyed
/// one fails the call before any argument is converted or the host is called.
/// The host gets the explicit arguments followed by `varargs`; a failed outcome
/// gives the rendered call, and a result that does not convert to the declared
/// return type fails too.
pub fn out_class_varcall<H: Fn(Vec<Variant>) -> (Variant, CallOutcome)>(
    sig: &Signature,
    method_name: &str,
    target: Option<InstanceId>,
    objects: &ObjectTable,
    args: &Vec<NativeValue>,
    varargs: &Vec<Variant>,
    host: H,
) -> (r: Result<NativeValue, CallFailure>)
    requires
        sig.wf(),
        args_typed(sig.params@, args@),
        forall|b: Vec<Variant>| host.requires((b,)),
    ensures
        target is Some && !objects@.contains(target->Some_0.id) ==> (r matches Err(
            CallFailure::StaleHandle { method, instance },
        ) && method@ == method_name@ && instance == target->Some_0),
        (target matches Some(id) ==> objects@.contains(id.id)) ==> exists|
            buf: Vec<Variant>,
            res: (Variant, CallOutcome),
        |
            buf@ == packed_args(args@) + varargs@ && #[trigger] host.ensures((buf,), res) && (if res.1.error
                != CallErrorKind::Success {
                r matches Err(CallFailure::CallFailed { outcome, call, arg_types, message })
                    && outcome == res.1 && call@ == render_call(method_name@, packed_args(args@), varargs@)
                    && arg_types@ == arg_types_spec(packed_args(args@), varargs@) && message@
                    == failure_message(res.1.error, call@, arg_types@)
            } else {
                match from_variant_spec(res.0, sig.ret) {
                    Ok(v) => r == Ok::<NativeValue, CallFailure>(v),
                    Err(e) => r matches Err(
                        CallFailure::ResultMismatch { method, return_type, problem },
                    ) && method@ == method_name@ && return_type == sig.ret && problem
                        == ArgProblem::Conversion(e),
                }
            }),
{
    if let Some(id) = target {
        ensure_object_alive(objects, id, method_name)?;
    }
    let (explicit, all) = pack_varcall_args(args, varargs);
    let ghost buf = all;
    let res = host(all);
    assert(host.ensures((buf,), res));
    check_varcall_error(&res.1, method_name, &explicit, varargs)?;
    match try_from_variant(&res.0, sig.ret) {
        Ok(v) => Ok(v),
        Err(e) => Err(
            CallFailure::ResultMismatch {
                method: String::from_str(method_name),
                return_type: sig.ret,
                problem: ArgProblem::Conversion(e),
            },
        ),
    }
}

/// Calls a host method or function through the pointer convention. A call
/// through a handle (`target`) first checks that the object lives; a destroyed
/// one fails the call before any argument is marshalled or the host is called.
/// The host gets the argument slots and gives back the bytes of the return
/// slot, which are read as the declared return type.
pub fn out_class_ptrcall<H: Fn(Vec<Vec<u8>>) -> Vec<u8>>(
    sig: &Signature,
    method_name: &str,
    target: Option<InstanceId>,
    objects: &ObjectTable,
    args: &Vec<NativeValue>,
    host: H,
) -> (r: Result<NativeValue, CallFailure>)
    requires
        sig.wf(),
        args_typed(sig.params@, args@),
        forall|b: Vec<Vec<u8>>| host.requires((b,)),
    ensures
        target is Some && !objects@.contains(target->Some_0.id) ==> (r matches Err(
            CallFailure::StaleHandle { method, instance },
        ) && method@ == method_name@ && instance == target->Some_0),
        (target matches Some(id) ==> objects@.contains(id.id)) ==> exists|
            buf: Vec<Vec<u8>>,
            ret: Vec<u8>,
        |
            buf@.len() == args@.len() && (forall|i: int|
                0 <= i < args@.len() ==> (#[trigger] buf@[i])@ == ptr_repr_spec(args@[i]))
                && #[trigger] host.ensures((buf,), ret) && ptr_result(ret@, sig.ret, method_name@, r),
{
    if let Some(id) = target {
        ensure_object_alive(objects, id, method_name)?;
    }
    let slots = pack_ptrcall_args(args);
    let ghost buf = slots;
    let ret = host(slots);
    assert(host.ensures((buf,), ret));
    read_ptr_result(sig, method_name, &ret)
}

/// Calls a host free function that takes its arguments, the trailing ones
/// included, as dynamic values, and gives back the bytes of its return slot,
/// which are read as the declared return type.
pub fn out_utility_ptrcall_varargs<H: Fn(Vec<Variant>) -> Vec<u8>>(
    sig: &Signature,
    method_name: &str,
    args: &Vec<NativeValue>,
    varargs: &Vec<Variant>,
    host: H,
) -> (r: Result<NativeValue, CallFailure>)
    requires
        sig.wf(),
        args_typed(sig.params@, args@),
        forall|b: Vec<Variant>| host.requires((b,)),
    ensures
        exists|buf: Vec<Variant>, ret: Vec<u8>|
            buf@ == packed_args(args@) + varargs@ && #[trigger] host.ensures((buf,), ret)
                && ptr_result(ret@, sig.ret, method_name@, r),
{
    let (_, all) = pack_varcall_args(args, varargs);
    let ghost buf = all;
    let ret = host(all);
    assert(host.ensures((buf,), ret));
    read_ptr_result(sig, method_name, &ret)
}

/// Packing typed arguments and a typed result for a signature, and unpacking
/// them against the same signature, gives them back in the same order: as the
/// very values under the variadic convention, and as equal values (strings by
/// their characters) under the pointer convention, whatever the call's origin.
pub proof fn lemma_arity_dispatch(
    sig: Signature,
    args: Seq<NativeValue>,
    ret: NativeValue,
    call_type: PtrcallType,
    slots: Seq<Vec<u8>>,
    read: Seq<NativeValue>,
    ret_read: Result<NativeValue, MarshalError>,
)
    requires
        sig.wf(),
        args_typed(sig.params@, args),
        native_type_of(ret) == sig.ret,
        slots.len() == args.len(),
        forall|i: int| 0 <= i < args.len() ==> (#[trigger] slots[i])@ == ptr_repr_spec(args[i]),
        ptr_args_read(sig.params@, slots, call_type, read),
        ptr_read_spec(ptr_repr_spec(ret), sig.ret, call_type, ret_read),
    ensures
        all_convert(sig.params@, packed_args(args)),
        unpacked_args(sig.params@, packed_args(args)) == args,
        from_variant_spec(to_variant_spec(ret), sig.ret) == Ok::<NativeValue, ConversionError>(ret),
        read.len() == args.len(),
        forall|i: int| 0 <= i < args.len() ==> same_native(#[trigger] read[i], args[i]),
        ret_read matches Ok(v) && same_native(v, ret),
{
    assert forall|i: int| 0 <= i < args.len() implies (#[trigger] from_variant_spec(
        packed_args(args)[i],
        sig.params@[i],
    )) == Ok::<NativeValue, ConversionError>(args[i]) by {
        lemma_variant_round_trip(args[i]);
    }
    assert(unpacked_args(sig.params@, packed_args(args)) =~= args);
    assert forall|i: int| 0 <= i < args.len() implies same_native(#[trigger] read[i], args[i]) by {
        assert(ptr_read_spec(slots[i]@, sig.params@[i], call_type, Ok::<NativeValue, MarshalError>(read[i])));
        lemma_ptr_round_trip(args[i], call_type, Ok(read[i]));
    }
    lemma_variant_round_trip(ret);
    lemma_ptr_round_trip(ret, call_type, ret_read);
}

} // verus!
