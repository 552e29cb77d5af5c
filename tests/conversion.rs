use gdcall::marshal::{to_ptr_repr, try_from_ptr_repr, MarshalError, PtrcallType};
use gdcall::variant::{
    to_variant, try_from_variant, ConversionError, InstanceId, NativeType, NativeValue, Variant,
    VariantType,
};

fn samples() -> Vec<NativeValue> {
    vec![
        NativeValue::Unit,
        NativeValue::Bool(true),
        NativeValue::Bool(false),
        NativeValue::I64(i64::MIN),
        NativeValue::I64(-1),
        NativeValue::I64(i64::MAX),
        NativeValue::I32(i32::MIN),
        NativeValue::I32(42),
        NativeValue::U32(u32::MAX),
        NativeValue::U8(0),
        NativeValue::U8(255),
        NativeValue::Str(String::new()),
        NativeValue::Str("héllo wörld ✓".to_string()),
        NativeValue::Object(InstanceId { id: 0x0123_4567_89ab_cdef }),
    ]
}

#[test]
fn variant_round_trip_every_type() {
    for x in samples() {
        let t = x.native_type();
        let v = to_variant(&x);
        assert_eq!(try_from_variant(&v, t), Ok(x));
    }
}

#[test]
fn ptr_round_trip_every_type_and_origin() {
    for x in samples() {
        for k in [PtrcallType::Standard, PtrcallType::Virtual] {
            let t = x.native_type();
            let bytes = to_ptr_repr(&x);
            assert_eq!(try_from_ptr_repr(&bytes, t, k), Ok(x.duplicate()));
        }
    }
}

#[test]
fn small_ints_widen_to_int_tag() {
    assert_eq!(to_variant(&NativeValue::I32(-7)), Variant::Int(-7));
    assert_eq!(to_variant(&NativeValue::U8(200)), Variant::Int(200));
    assert_eq!(to_variant(&NativeValue::Unit), Variant::Nil);
}

#[test]
fn tag_mismatch_is_rejected() {
    let r = try_from_variant(&Variant::Str("3".to_string()), NativeType::I64);
    assert_eq!(
        r,
        Err(ConversionError::TypeMismatch { expected: VariantType::Int, found: VariantType::String })
    );
    let r = try_from_variant(&Variant::Int(1), NativeType::Bool);
    assert_eq!(
        r,
        Err(ConversionError::TypeMismatch { expected: VariantType::Bool, found: VariantType::Int })
    );
    let r = try_from_variant(&Variant::Nil, NativeType::Object);
    assert_eq!(
        r,
        Err(ConversionError::TypeMismatch { expected: VariantType::Object, found: VariantType::Nil })
    );
}

#[test]
fn out_of_range_int_is_rejected() {
    let r = try_from_variant(&Variant::Int(i64::from(i32::MAX) + 1), NativeType::I32);
    assert_eq!(
        r,
        Err(ConversionError::OutOfRange { target: NativeType::I32, value: 2147483648 })
    );
    let r = try_from_variant(&Variant::Int(-1), NativeType::U8);
    assert_eq!(r, Err(ConversionError::OutOfRange { target: NativeType::U8, value: -1 }));
    assert_eq!(try_from_variant(&Variant::Int(256), NativeType::U8).is_err(), true);
    assert_eq!(try_from_variant(&Variant::Int(255), NativeType::U8), Ok(NativeValue::U8(255)));
}

#[test]
fn unit_takes_any_value() {
    assert_eq!(try_from_variant(&Variant::Int(5), NativeType::Unit), Ok(NativeValue::Unit));
    assert_eq!(
        try_from_variant(&Variant::Str("x".to_string()), NativeType::Unit),
        Ok(NativeValue::Unit)
    );
}

#[test]
fn int_slot_is_little_endian() {
    assert_eq!(to_ptr_repr(&NativeValue::I64(0x0102)), vec![2, 1, 0, 0, 0, 0, 0, 0]);
    assert_eq!(to_ptr_repr(&NativeValue::I32(-1)), vec![255; 8]);
    assert_eq!(to_ptr_repr(&NativeValue::Bool(true)), vec![1]);
    assert_eq!(to_ptr_repr(&NativeValue::Str("ab".to_string())), vec![b'a', b'b']);
    assert_eq!(to_ptr_repr(&NativeValue::Unit), Vec::<u8>::new());
}

#[test]
fn ptr_read_failures() {
    let k = PtrcallType::Standard;
    assert_eq!(
        try_from_ptr_repr(&vec![1, 2, 3], NativeType::I64, k),
        Err(MarshalError::WrongSize { target: NativeType::I64, len: 3 })
    );
    assert_eq!(
        try_from_ptr_repr(&vec![2], NativeType::Bool, k),
        Err(MarshalError::InvalidRepr { target: NativeType::Bool })
    );
    assert_eq!(
        try_from_ptr_repr(&vec![0xff, 0xfe], NativeType::String, k),
        Err(MarshalError::InvalidRepr { target: NativeType::String })
    );
    let big = to_ptr_repr(&NativeValue::I64(1 << 40));
    assert_eq!(
        try_from_ptr_repr(&big, NativeType::I32, k),
        Err(MarshalError::OutOfRange { target: NativeType::I32, value: 1 << 40 })
    );
    let neg = to_ptr_repr(&NativeValue::I64(-5));
    assert_eq!(
        try_from_ptr_repr(&neg, NativeType::U32, k),
        Err(MarshalError::OutOfRange { target: NativeType::U32, value: -5 })
    );
}

#[test]
fn utf8_slot_decodes_characters() {
    let bytes = "añ✓".as_bytes().to_vec();
    assert_eq!(
        try_from_ptr_repr(&bytes, NativeType::String, PtrcallType::Virtual),
        Ok(NativeValue::Str("añ✓".to_string()))
    );
}
