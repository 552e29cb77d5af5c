//! The pointer convention: native values as the bytes of an untagged slot.
//! Which native type a slot holds is known from the call signature alone.
use vstd::prelude::*;
use vstd::utf8::{decode_utf8, encode_utf8, valid_utf8, encode_utf8_decode_utf8, encode_utf8_valid_utf8};
use vstd::string::StrSliceExecFns;
use crate::variant::{InstanceId, NativeType, NativeValue, in_range, native_type_of};

verus! {

/// Where a pointer call comes from. The origin decides who owns the storage
/// behind a slot for the duration of the call; it does not change the value
/// that a slot holds.
#[derive(Clone, Copy, Debug, PartialEq, Eq, Structural)]
pub enum PtrcallType {
    /// A call through a typed binding.
    Standard,
    /// A call from a virtual-dispatch trampoline.
    Virtual,
}

/// Why the bytes of a slot do not hold a value of the expected native type.
#[derive(Clone, Copy, Debug, PartialEq, Eq, Structural)]
pub enum MarshalError {
    /// The slot has not the size that the native type takes.
    WrongSize { target: NativeType, len: usize },
    /// The bytes are no valid representation of the native type.
    InvalidRepr { target: NativeType },
    /// The integer in the slot does not fit the native type.
    OutOfRange { target: NativeType, value: i64 },
}

/// The eight little-endian bytes of `x`.
pub open spec fn le_bytes(x: u64) -> Seq<u8> {
    seq![
        x as u8,
        (x >> 8) as u8,
        (x >> 16) as u8,
        (x >> 24) as u8,
        (x >> 32) as u8,
        (x >> 40) as u8,
        (x >> 48) as u8,
        (x >> 56) as u8,
    ]
}

/// The integer that eight little-endian bytes hold.
pub open spec fn le_value(b: Seq<u8>) -> u64
    recommends
        b.len() == 8,
{
    (b[0] as u64) | ((b[1] as u64) << 8) | ((b[2] as u64) << 16) | ((b[3] as u64) << 24)
        | ((b[4] as u64) << 32) | ((b[5] as u64) << 40) | ((b[6] as u64) << 48) | ((b[7]
        as u64) << 56)
}

/// The slot bytes of a native value: integers travel as 64-bit little-endian
/// integers, `bool` as one byte 0 or 1, strings as their UTF-8 encoding, objects
/// as the little-endian bytes of their instance id, and `Unit` as no bytes.
pub open spec fn ptr_repr_spec(v: NativeValue) -> Seq<u8> {
    match v {
        NativeValue::Unit => Seq::empty(),
        NativeValue::Bool(b) => seq![if b { 1u8 } else { 0u8 }],
        NativeValue::I64(i) => le_bytes(i as u64),
        NativeValue::I32(i) => le_bytes(i as i64 as u64),
        NativeValue::U32(i) => le_bytes(i as i64 as u64),
        NativeValue::U8(i) => le_bytes(i as i64 as u64),
        NativeValue::Str(s) => encode_utf8(s@),
        NativeValue::Object(id) => le_bytes(id.id),
    }
}

/// The native value of integer type `t` for the integer `i`, which fits `t`.
pub open spec fn int_native(t: NativeType, i: i64) -> NativeValue {
    match t {
        NativeType::I32 => NativeValue::I32(i as i32),
        NativeType::U32 => NativeValue::U32(i as u32),
        NativeType::U8 => NativeValue::U8(i as u8),
        _ => NativeValue::I64(i),
    }
}

/// What reading the slot bytes `b` as native type `t` gives. A string is
/// described by its characters, so this is a relation on the result.
pub open spec fn ptr_read_spec(
    b: Seq<u8>,
    t: NativeType,
    call_type: PtrcallType,
    r: Result<NativeValue, MarshalError>,
) -> bool {
    match t {
        NativeType::Unit => r == Ok::<NativeValue, MarshalError>(NativeValue::Unit),
        NativeType::Bool => if b.len() == 1 && b[0] <= 1 {
            r == Ok::<NativeValue, MarshalError>(NativeValue::Bool(b[0] == 1))
        } else {
            r == Err::<NativeValue, MarshalError>(MarshalError::InvalidRepr { target: t })
        },
        NativeType::String => if valid_utf8(b) {
            r matches Ok(NativeValue::Str(s)) && s@ == decode_utf8(b)
        } else {
            r == Err::<NativeValue, MarshalError>(MarshalError::InvalidRepr { target: t })
        },
        _ => if b.len() != 8 {
            r == Err::<NativeValue, MarshalError>(
                MarshalError::WrongSize { target: t, len: b.len() as usize },
            )
        } else if t == NativeType::Object {
            r == Ok::<NativeValue, MarshalError>(NativeValue::Object(InstanceId { id: le_value(b) }))
        } else if in_range(t, le_value(b) as i64 as int) {
            r == Ok::<NativeValue, MarshalError>(int_native(t, le_value(b) as i64))
        } else {
            r == Err::<NativeValue, MarshalError>(
                MarshalError::OutOfRange { target: t, value: le_value(b) as i64 },
            )
        },
    }
}

/// Equality of native values, with strings compared by their characters.
pub open spec fn same_native(a: NativeValue, b: NativeValue) -> bool {
    match (a, b) {
        (NativeValue::Str(s), NativeValue::Str(t)) => s@ == t@,
        _ => a == b,
    }
}

fn le_bytes_of(x: u64) -> (r: Vec<u8>)
    ensures
        r@ == le_bytes(x),
{
    let mut r: Vec<u8> = Vec::new();
    r.push(x as u8);
    r.push((x >> 8) as u8);
    r.push((x >> 16) as u8);
    r.push((x >> 24) as u8);
    r.push((x >> 32) as u8);
    r.push((x >> 40) as u8);
    r.push((x >> 48) as u8);
    r.push((x >> 56) as u8);
    assert(r@ =~= le_bytes(x));
    r
}

fn le_value_of(b: &Vec<u8>) -> (r: u64)
    requires
        b@.len() == 8,
    ensures
        r == le_value(b@),
{
    (b[0] as u64) | ((b[1] as u64) << 8) | ((b[2] as u64) << 16) | ((b[3] as u64) << 24)
        | ((b[4] as u64) << 32) | ((b[5] as u64) << 40) | ((b[6] as u64) << 48) | ((b[7]
        as u64) << 56)
}

/// Relies on std's `String::from_utf8`: it succeeds exactly on valid UTF-8 and
/// then holds the decoded characters.
#[verifier::external_body]
fn string_from_utf8(b: &Vec<u8>) -> (r: Option<String>)
    ensures
        r is Some <==> valid_utf8(b@),
        r matches Some(s) ==> s@ == decode_utf8(b@),
{
    String::from_utf8(b.clone()).ok()
}

/// Writes a native value into the bytes of a pointer-convention slot. Every
/// native type has a representation, so this never fails.
pub fn to_ptr_repr(v: &NativeValue) -> (r: Vec<u8>)
    ensures
        r@ == ptr_repr_spec(*v),
{
    match v {
        NativeValue::Unit => Vec::new(),
        NativeValue::Bool(b) => {
            let mut r: Vec<u8> = Vec::new();
            r.push(if *b { 1u8 } else { 0u8 });
            r
        },
        NativeValue::I64(i) => le_bytes_of(*i as u64),
        NativeValue::I32(i) => le_bytes_of(*i as i64 as u64),
        NativeValue::U32(i) => le_bytes_of(*i as i64 as u64),
        NativeValue::U8(i) => le_bytes_of(*i as i64 as u64),
        NativeValue::Str(s) => s.as_str().as_bytes_vec(),
        NativeValue::Object(id) => le_bytes_of(id.id),
    }
}

/// Reads the bytes of a pointer-convention slot as a value of native type `t`.
pub fn try_from_ptr_repr(b: &Vec<u8>, t: NativeType, call_type: PtrcallType) -> (r: Result<
    NativeValue,
    MarshalError,
>)
    ensures
        ptr_read_spec(b@, t, call_type, r),
{
    match t {
        NativeType::Unit => Ok(NativeValue::Unit),
        NativeType::Bool => if b.len() == 1 && b[0] <= 1 {
            Ok(NativeValue::Bool(b[0] == 1))
        } else {
            Err(MarshalError::InvalidRepr { target: t })
        },
        NativeType::String => match string_from_utf8(b) {
            Some(s) => Ok(NativeValue::Str(s)),
            None => Err(MarshalError::InvalidRepr { target: t }),
        },
        _ => {
            if b.len() != 8 {
                return Err(MarshalError::WrongSize { target: t, len: b.len() });
            }
            let w = le_value_of(b);
            if t == NativeType::Object {
                return Ok(NativeValue::Object(InstanceId { id: w }));
            }
            let i = w as i64;
            match t {
                NativeType::I32 => if i < i32::MIN as i64 || i > i32::MAX as i64 {
                    Err(MarshalError::OutOfRange { target: t, value: i })
                } else {
                    Ok(NativeValue::I32(i as i32))
                },
                NativeType::U32 => if i < 0 || i > u32::MAX as i64 {
                    Err(MarshalError::OutOfRange { target: t, value: i })
                } else {
                    Ok(NativeValue::U32(i as u32))
                },
                NativeType::U8 => if i < 0 || i > u8::MAX as i64 {
                    Err(MarshalError::OutOfRange { target: t, value: i })
                } else {
                    Ok(NativeValue::U8(i as u8))
                },
                _ => Ok(NativeValue::I64(i)),
            }
        },
    }
}

proof fn lemma_i64_bits(i: i64)
    ensures
        i as u64 as i64 == i,
{
    assert(i as u64 as i64 == i) by (bit_vector);
}

proof fn lemma_le_round_trip(x: u64)
    ensures
        le_value(le_bytes(x)) == x,
{
    let b = le_bytes(x);
    let (b0, b1, b2, b3) = (x as u8, (x >> 8) as u8, (x >> 16) as u8, (x >> 24) as u8);
    let (b4, b5, b6, b7) = ((x >> 32) as u8, (x >> 40) as u8, (x >> 48) as u8, (x >> 56) as u8);
    assert(b[0] == b0 && b[1] == b1 && b[2] == b2 && b[3] == b3);
    assert(b[4] == b4 && b[5] == b5 && b[6] == b6 && b[7] == b7);
    assert((b0 as u64) | ((b1 as u64) << 8) | ((b2 as u64) << 16) | ((b3 as u64) << 24) | ((
    b4 as u64) << 32) | ((b5 as u64) << 40) | ((b6 as u64) << 48) | ((b7 as u64) << 56) == x)
        by (bit_vector)
        requires
            b0 == x as u8,
            b1 == (x >> 8) as u8,
            b2 == (x >> 16) as u8,
            b3 == (x >> 24) as u8,
            b4 == (x >> 32) as u8,
            b5 == (x >> 40) as u8,
            b6 == (x >> 48) as u8,
            b7 == (x >> 56) as u8,
    ;
}

/// Writing a native value into a slot and reading the slot back as the value's
/// own type gives the value back, whatever the call's origin.
pub proof fn lemma_ptr_round_trip(
    x: NativeValue,
    call_type: PtrcallType,
    r: Result<NativeValue, MarshalError>,
)
    requires
        ptr_read_spec(ptr_repr_spec(x), native_type_of(x), call_type, r),
    ensures
        r is Ok,
        same_native(r->Ok_0, x),
{
    match x {
        NativeValue::Str(s) => {
            encode_utf8_valid_utf8(s@);
            encode_utf8_decode_utf8(s@);
            assert(r->Ok_0 matches NativeValue::Str(t) && t@ == s@);
        },
        NativeValue::I64(i) => {
            lemma_le_round_trip(i as u64);
            lemma_i64_bits(i);
        },
        NativeValue::I32(i) => {
            lemma_le_round_trip(i as i64 as u64);
            lemma_i64_bits(i as i64);
        },
        NativeValue::U32(i) => {
            lemma_le_round_trip(i as i64 as u64);
            lemma_i64_bits(i as i64);
        },
        NativeValue::U8(i) => {
            lemma_le_round_trip(i as i64 as u64);
            lemma_i64_bits(i as i64);
        },
        NativeValue::Object(id) => {
            lemma_le_round_trip(id.id);
        },
        NativeValue::Bool(v) => {
            let b = ptr_repr_spec(x);
            assert(b.len() == 1 && b[0] <= 1 && (b[0] == 1) == v);
        },
        NativeValue::Unit => {},
    }
}

} // verus!
