//! Dynamic values (a tagged union) and their conversion from and to native values.
use vstd::prelude::*;

verus! {

/// Identifies a host object independently of its current address.
#[derive(Clone, Copy, Debug, PartialEq, Eq, Structural)]
pub struct InstanceId {
    pub id: u64,
}

/// The tag that a dynamic value carries.
#[derive(Clone, Copy, Debug, PartialEq, Eq, Structural)]
pub enum VariantType {
    Nil,
    Bool,
    Int,
    String,
    Object,
}

/// A self-describing value of the variadic convention.
#[derive(Debug, PartialEq)]
pub enum Variant {
    Nil,
    Bool(bool),
    Int(i64),
    Str(String),
    Object(InstanceId),
}

/// The native types that cross the boundary; `Unit` stands for "no value".
#[derive(Clone, Copy, Debug, PartialEq, Eq, Structural)]
pub enum NativeType {
    Unit,
    Bool,
    I64,
    I32,
    U32,
    U8,
    String,
    Object,
}

/// A native value of one of the types of `NativeType`.
#[derive(Debug, PartialEq)]
pub enum NativeValue {
    Unit,
    Bool(bool),
    I64(i64),
    I32(i32),
    U32(u32),
    U8(u8),
    Str(String),
    Object(InstanceId),
}

/// Why a dynamic value could not become a native value.
#[derive(Clone, Copy, Debug, PartialEq, Eq, Structural)]
pub enum ConversionError {
    /// The value's tag is not the one the native type is stored under.
    TypeMismatch { expected: VariantType, found: VariantType },
    /// The tag fits, but the payload lies outside the native type's range.
    OutOfRange { target: NativeType, value: i64 },
}

pub open spec fn variant_type_of(v: Variant) -> VariantType {
    match v {
        Variant::Nil => VariantType::Nil,
        Variant::Bool(_) => VariantType::Bool,
        Variant::Int(_) => VariantType::Int,
        Variant::Str(_) => VariantType::String,
        Variant::Object(_) => VariantType::Object,
    }
}

pub open spec fn native_type_of(v: NativeValue) -> NativeType {
    match v {
        NativeValue::Unit => NativeType::Unit,
        NativeValue::Bool(_) => NativeType::Bool,
        NativeValue::I64(_) => NativeType::I64,
        NativeValue::I32(_) => NativeType::I32,
        NativeValue::U32(_) => NativeType::U32,
        NativeValue::U8(_) => NativeType::U8,
        NativeValue::Str(_) => NativeType::String,
        NativeValue::Object(_) => NativeType::Object,
    }
}

/// The tag under which values of a native type are stored.
pub open spec fn tag_of(t: NativeType) -> VariantType {
    match t {
        NativeType::Unit => VariantType::Nil,
        NativeType::Bool => VariantType::Bool,
        NativeType::I64 | NativeType::I32 | NativeType::U32 | NativeType::U8 => VariantType::Int,
        NativeType::String => VariantType::String,
        NativeType::Object => VariantType::Object,
    }
}

/// Inclusive range of the integer native types.
pub open spec fn int_range(t: NativeType) -> (int, int) {
    match t {
        NativeType::I32 => (i32::MIN as int, i32::MAX as int),
        NativeType::U32 => (0, u32::MAX as int),
        NativeType::U8 => (0, u8::MAX as int),
        _ => (i64::MIN as int, i64::MAX as int),
    }
}

pub open spec fn in_range(t: NativeType, i: int) -> bool {
    int_range(t).0 <= i <= int_range(t).1
}

/// The dynamic value that stands for a native value.
pub open spec fn to_variant_spec(v: NativeValue) -> Variant {
    match v {
        NativeValue::Unit => Variant::Nil,
        NativeValue::Bool(b) => Variant::Bool(b),
        NativeValue::I64(i) => Variant::Int(i),
        NativeValue::I32(i) => Variant::Int(i as i64),
        NativeValue::U32(i) => Variant::Int(i as i64),
        NativeValue::U8(i) => Variant::Int(i as i64),
        NativeValue::Str(s) => Variant::Str(s),
        NativeValue::Object(id) => Variant::Object(id),
    }
}

/// The native value of type `t` that a dynamic value converts to, if any.
pub open spec fn from_variant_spec(v: Variant, t: NativeType) -> Result<NativeValue, ConversionError> {
    if t == NativeType::Unit {
        Ok(NativeValue::Unit)
    } else if variant_type_of(v) != tag_of(t) {
        Err(ConversionError::TypeMismatch { expected: tag_of(t), found: variant_type_of(v) })
    } else {
        match v {
            Variant::Bool(b) => Ok(NativeValue::Bool(b)),
            Variant::Int(i) => if !in_range(t, i as int) {
                Err(ConversionError::OutOfRange { target: t, value: i })
            } else {
                match t {
                    NativeType::I32 => Ok(NativeValue::I32(i as i32)),
                    NativeType::U32 => Ok(NativeValue::U32(i as u32)),
                    NativeType::U8 => Ok(NativeValue::U8(i as u8)),
                    _ => Ok(NativeValue::I64(i)),
                }
            },
            Variant::Str(s) => Ok(NativeValue::Str(s)),
            Variant::Object(id) => Ok(NativeValue::Object(id)),
            Variant::Nil => Ok(NativeValue::Unit),
        }
    }
}

impl Variant {
    /// The tag of this value.
    pub fn get_type(&self) -> (r: VariantType)
        ensures
            r == variant_type_of(*self),
    {
        match self {
            Variant::Nil => VariantType::Nil,
            Variant::Bool(_) => VariantType::Bool,
            Variant::Int(_) => VariantType::Int,
            Variant::Str(_) => VariantType::String,
            Variant::Object(_) => VariantType::Object,
        }
    }

    /// A copy of this value.
    pub fn duplicate(&self) -> (r: Variant)
        ensures
            r == *self,
    {
        match self {
            Variant::Nil => Variant::Nil,
            Variant::Bool(b) => Variant::Bool(*b),
            Variant::Int(i) => Variant::Int(*i),
            Variant::Str(s) => Variant::Str(s.clone()),
            Variant::Object(id) => Variant::Object(*id),
        }
    }
}

impl NativeValue {
    /// The native type of this value.
    pub fn native_type(&self) -> (r: NativeType)
        ensures
            r == native_type_of(*self),
    {
        match self {
            NativeValue::Unit => NativeType::Unit,
            NativeValue::Bool(_) => NativeType::Bool,
            NativeValue::I64(_) => NativeType::I64,
            NativeValue::I32(_) => NativeType::I32,
            NativeValue::U32(_) => NativeType::U32,
            NativeValue::U8(_) => NativeType::U8,
            NativeValue::Str(_) => NativeType::String,
            NativeValue::Object(_) => NativeType::Object,
        }
    }

    /// A copy of this value.
    pub fn duplicate(&self) -> (r: NativeValue)
        ensures
            r == *self,
    {
        match self {
            NativeValue::Unit => NativeValue::Unit,
            NativeValue::Bool(b) => NativeValue::Bool(*b),
            NativeValue::I64(i) => NativeValue::I64(*i),
            NativeValue::I32(i) => NativeValue::I32(*i),
            NativeValue::U32(i) => NativeValue::U32(*i),
            NativeValue::U8(i) => NativeValue::U8(*i),
            NativeValue::Str(s) => NativeValue::Str(s.clone()),
            NativeValue::Object(id) => NativeValue::Object(*id),
        }
    }
}

/// The tag under which values of `t` are stored.
pub fn variant_tag(t: NativeType) -> (r: VariantType)
    ensures
        r == tag_of(t),
{
    match t {
        NativeType::Unit => VariantType::Nil,
        NativeType::Bool => VariantType::Bool,
        NativeType::I64 | NativeType::I32 | NativeType::U32 | NativeType::U8 => VariantType::Int,
        NativeType::String => VariantType::String,
        NativeType::Object => VariantType::Object,
    }
}

/// Converts a native value to a dynamic value; never fails.
pub fn to_variant(v: &NativeValue) -> (r: Variant)
    ensures
        r == to_variant_spec(*v),
{
    match v {
        NativeValue::Unit => Variant::Nil,
        NativeValue::Bool(b) => Variant::Bool(*b),
        NativeValue::I64(i) => Variant::Int(*i),
        NativeValue::I32(i) => Variant::Int(*i as i64),
        NativeValue::U32(i) => Variant::Int(*i as i64),
        NativeValue::U8(i) => Variant::Int(*i as i64),
        NativeValue::Str(s) => Variant::Str(s.clone()),
        NativeValue::Object(id) => Variant::Object(*id),
    }
}

/// Converts a dynamic value to a native value of type `t`. The tag must be the
/// one `t` is stored under and the payload must fit `t`; converting to `Unit`
/// always succeeds and drops the payload.
pub fn try_from_variant(v: &Variant, t: NativeType) -> (r: Result<NativeValue, ConversionError>)
    ensures
        r == from_variant_spec(*v, t),
{
    if t == NativeType::Unit {
        return Ok(NativeValue::Unit);
    }
    let found = v.get_type();
    let expected = variant_tag(t);
    if found != expected {
        return Err(ConversionError::TypeMismatch { expected, found });
    }
    match v {
        Variant::Bool(b) => Ok(NativeValue::Bool(*b)),
        Variant::Int(i) => {
            let i = *i;
            match t {
                NativeType::I32 => if i < i32::MIN as i64 || i > i32::MAX as i64 {
                    Err(ConversionError::OutOfRange { target: t, value: i })
                } else {
                    Ok(NativeValue::I32(i as i32))
                },
                NativeType::U32 => if i < 0 || i > u32::MAX as i64 {
                    Err(ConversionError::OutOfRange { target: t, value: i })
                } else {
                    Ok(NativeValue::U32(i as u32))
                },
                NativeType::U8 => if i < 0 || i > u8::MAX as i64 {
                    Err(ConversionError::OutOfRange { target: t, value: i })
                } else {
                    Ok(NativeValue::U8(i as u8))
                },
                _ => Ok(NativeValue::I64(i)),
            }
        },
        Variant::Str(s) => Ok(NativeValue::Str(s.clone())),
        Variant::Object(id) => Ok(NativeValue::Object(*id)),
        Variant::Nil => Ok(NativeValue::Unit),
    }
}

/// Converting a native value to a dynamic value and back to its own type gives
/// the value back.
pub proof fn lemma_variant_round_trip(x: NativeValue)
    ensures
        from_variant_spec(to_variant_spec(x), native_type_of(x)) == Ok::<NativeValue, ConversionError>(x),
{
}

/// A dynamic value whose tag is not the one a native type is stored under never
/// converts to that type (but for `Unit`, which takes any value): the
/// conversion fails with a type mismatch.
pub proof fn lemma_tag_mismatch_rejected(v: Variant, t: NativeType)
    requires
        t != NativeType::Unit,
        variant_type_of(v) != tag_of(t),
    ensures
        from_variant_spec(v, t) == Err::<NativeValue, ConversionError>(
            ConversionError::TypeMismatch { expected: tag_of(t), found: variant_type_of(v) },
        ),
{
}

} // verus!
