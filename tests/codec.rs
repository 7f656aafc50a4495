use mculink::codec::{decode, encode, TypedValue, VarType};

fn round_trip(v: TypedValue) {
    let bytes = encode(v);
    assert_eq!(bytes.len(), v.var_type().width());
    assert_eq!(decode(v.var_type(), &bytes), Some(v));
}

#[test]
fn integer_round_trip_at_the_edges() {
    for x in [0u8, 1, 127, 128, 255] {
        round_trip(TypedValue::U8(x));
    }
    for x in [i8::MIN, -1, 0, 1, i8::MAX] {
        round_trip(TypedValue::I8(x));
    }
    for x in [0u16, 255, 256, 0x8000, u16::MAX] {
        round_trip(TypedValue::U16(x));
    }
    for x in [i16::MIN, -256, -1, 0, 1, i16::MAX] {
        round_trip(TypedValue::I16(x));
    }
    for x in [0u32, 0xFF, 0x1_0000, 0x8000_0000, u32::MAX] {
        round_trip(TypedValue::U32(x));
    }
    for x in [i32::MIN, -65536, -1, 0, 1, i32::MAX] {
        round_trip(TypedValue::I32(x));
    }
}

#[test]
fn every_int16_round_trips() {
    for x in i16::MIN..=i16::MAX {
        round_trip(TypedValue::I16(x));
    }
    for x in 0..=u16::MAX {
        round_trip(TypedValue::U16(x));
    }
}

#[test]
fn float_round_trips_at_single_precision() {
    for f in [0.0f32, -40.0, 85.0, 22.5, f32::MAX, f32::MIN_POSITIVE] {
        round_trip(TypedValue::F32(f.to_bits()));
    }
    let narrowed = (0.1f64 as f32).to_bits();
    let back = match decode(VarType::Float, &encode(TypedValue::F32(narrowed))) {
        Some(TypedValue::F32(b)) => f32::from_bits(b) as f64,
        other => panic!("unexpected {:?}", other),
    };
    assert_ne!(back, 0.1f64);
    assert_eq!(back as f32, 0.1f32);
}

#[test]
fn encodes_little_endian() {
    assert_eq!(encode(TypedValue::U32(0x1234_5678)), vec![0x78, 0x56, 0x34, 0x12]);
    assert_eq!(encode(TypedValue::I16(-2)), vec![0xFE, 0xFF]);
    assert_eq!(encode(TypedValue::I8(-128)), vec![0x80]);
    assert_eq!(encode(TypedValue::F32(1.0f32.to_bits())), vec![0x00, 0x00, 0x80, 0x3F]);
}

#[test]
fn decodes_sign_extended() {
    assert_eq!(decode(VarType::Int8, &[0xFF]), Some(TypedValue::I8(-1)));
    assert_eq!(decode(VarType::Uint8, &[0xFF]), Some(TypedValue::U8(255)));
    assert_eq!(decode(VarType::Int16, &[0x00, 0x80]), Some(TypedValue::I16(i16::MIN)));
    assert_eq!(decode(VarType::Int32, &[0xFF, 0xFF, 0xFF, 0xFF]), Some(TypedValue::I32(-1)));
    assert_eq!(decode(VarType::Uint32, &[1, 0, 0, 0, 9]), Some(TypedValue::U32(1)));
}

#[test]
fn short_input_does_not_decode() {
    assert_eq!(decode(VarType::Uint16, &[1]), None);
    assert_eq!(decode(VarType::Float, &[1, 2, 3]), None);
    assert_eq!(decode(VarType::Uint8, &[]), None);
}

#[test]
fn type_tags_codes_and_widths() {
    let all = [
        (VarType::Uint8, "UINT8", 0u8, 1usize),
        (VarType::Int8, "INT8", 1, 1),
        (VarType::Uint16, "UINT16", 2, 2),
        (VarType::Int16, "INT16", 3, 2),
        (VarType::Uint32, "UINT32", 4, 4),
        (VarType::Int32, "INT32", 5, 4),
        (VarType::Float, "FLOAT", 6, 4),
    ];
    for (t, name, code, width) in all {
        assert_eq!(t.name(), name);
        assert_eq!(VarType::from_name(name), Some(t));
        assert_eq!(t.code(), code);
        assert_eq!(VarType::from_code(code), Some(t));
        assert_eq!(t.width(), width);
    }
    assert_eq!(VarType::from_code(7), None);
    assert_eq!(VarType::from_name("DOUBLE"), None);
    assert_eq!(VarType::from_name("uint8"), None);
    assert_eq!(VarType::from_name(""), None);
}
