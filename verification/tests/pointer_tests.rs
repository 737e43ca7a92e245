use livesplit_auto_splitting::pointer::{decode_value, PointerKind, PointerValue};

#[test]
fn wire_codes_round_trip() {
    let kinds = [
        PointerKind::U8,
        PointerKind::U16,
        PointerKind::U32,
        PointerKind::U64,
        PointerKind::I8,
        PointerKind::I16,
        PointerKind::I32,
        PointerKind::I64,
        PointerKind::F32,
        PointerKind::F64,
        PointerKind::Str,
    ];
    for (expected, kind) in kinds.iter().enumerate() {
        let code = kind.code();
        assert_eq!(code as usize, expected);
        assert_eq!(PointerKind::from_code(code), Some(*kind));
    }
}

#[test]
fn wire_codes_past_the_last_kind_are_invalid() {
    let mut code = 11u8;
    loop {
        assert_eq!(PointerKind::from_code(code), None);
        if code == 255 {
            break;
        }
        code += 1;
    }
}

#[test]
fn zero_values_carry_their_kind() {
    assert_eq!(PointerValue::zero_of(PointerKind::U32), PointerValue::U32(0));
    assert_eq!(PointerValue::zero_of(PointerKind::I16), PointerValue::I16(0));
    assert_eq!(PointerValue::zero_of(PointerKind::F64), PointerValue::F64(0));
    assert_eq!(PointerValue::zero_of(PointerKind::Str), PointerValue::Str);
    assert_eq!(PointerValue::I8(-3).kind(), PointerKind::I8);
}

#[test]
fn decode_unsigned_little_endian() {
    assert_eq!(decode_value(PointerKind::U8, &[0x7F]), PointerValue::U8(0x7F));
    assert_eq!(decode_value(PointerKind::U16, &[0x34, 0x12]), PointerValue::U16(0x1234));
    assert_eq!(
        decode_value(PointerKind::U32, &[0x07, 0x00, 0x00, 0x00]),
        PointerValue::U32(7)
    );
    assert_eq!(
        decode_value(
            PointerKind::U64,
            &[0xEF, 0xCD, 0xAB, 0x89, 0x67, 0x45, 0x23, 0x01]
        ),
        PointerValue::U64(0x0123_4567_89AB_CDEF)
    );
}

#[test]
fn decode_signed_little_endian() {
    assert_eq!(decode_value(PointerKind::I8, &[0xFF]), PointerValue::I8(-1));
    assert_eq!(decode_value(PointerKind::I8, &[0x80]), PointerValue::I8(-128));
    assert_eq!(decode_value(PointerKind::I16, &[0xFE, 0xFF]), PointerValue::I16(-2));
    assert_eq!(
        decode_value(PointerKind::I32, &[0x00, 0x00, 0x00, 0x80]),
        PointerValue::I32(i32::MIN)
    );
    assert_eq!(
        decode_value(
            PointerKind::I64,
            &[0xFF, 0xFF, 0xFF, 0xFF, 0xFF, 0xFF, 0xFF, 0xFF]
        ),
        PointerValue::I64(-1)
    );
}

#[test]
fn decode_float_kinds_keep_raw_bits() {
    let bits = 1.5f32.to_bits();
    let bytes = bits.to_le_bytes();
    assert_eq!(decode_value(PointerKind::F32, &bytes), PointerValue::F32(bits));
    let bits64 = (-0.25f64).to_bits();
    let bytes64 = bits64.to_le_bytes();
    assert_eq!(decode_value(PointerKind::F64, &bytes64), PointerValue::F64(bits64));
}
