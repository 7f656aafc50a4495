use mculink::catalog::{extract_cstring, parse_record, Access, CatalogError, MCULINK_MAGIC, RECORD_LEN};
use mculink::codec::VarType;

fn record(type_code: u8, access: u8, name: &str, category: &str, min: f32, max: f32) -> Vec<u8> {
    let mut b = Vec::new();
    b.extend_from_slice(&MCULINK_MAGIC.to_le_bytes());
    b.extend_from_slice(&0x2000_09E8u32.to_le_bytes());
    b.push(type_code);
    b.push(access);
    b.extend_from_slice(&[0, 0]);
    b.extend_from_slice(&min.to_le_bytes());
    b.extend_from_slice(&max.to_le_bytes());
    let mut name_field = [0u8; 32];
    name_field[..name.len()].copy_from_slice(name.as_bytes());
    b.extend_from_slice(&name_field);
    let mut cat_field = [0u8; 22];
    cat_field[..category.len()].copy_from_slice(category.as_bytes());
    b.extend_from_slice(&cat_field);
    assert_eq!(b.len(), RECORD_LEN);
    b
}

#[test]
fn parses_a_well_formed_record() {
    let b = record(6, 1, "temperature_sensor", "Sensors", -40.0, 85.0);
    let v = parse_record(&b).unwrap();
    assert_eq!(v.name, "temperature_sensor");
    assert_eq!(v.address, 0x2000_09E8);
    assert_eq!(v.var_type, VarType::Float);
    assert_eq!(v.access_flags, Access::ReadWrite);
    assert_eq!(v.access_flags.name(), "RW");
    assert_eq!(v.category, Some("Sensors".to_string()));
    assert_eq!(f32::from_bits(v.min_bits), -40.0);
    assert_eq!(f32::from_bits(v.max_bits), 85.0);
}

#[test]
fn empty_category_is_absent() {
    let b = record(0, 0, "led_button", "", 0.0, 1.0);
    let v = parse_record(&b).unwrap();
    assert_eq!(v.category, None);
    assert_eq!(v.var_type, VarType::Uint8);
    assert_eq!(v.access_flags, Access::ReadOnly);
}

#[test]
fn rejects_unknown_type_code() {
    let b = record(7, 1, "x", "", 0.0, 1.0);
    assert_eq!(parse_record(&b).unwrap_err(), CatalogError::InvalidType(7));
}

#[test]
fn rejects_unknown_access_code() {
    let b = record(2, 2, "x", "", 0.0, 1.0);
    assert_eq!(parse_record(&b).unwrap_err(), CatalogError::InvalidAccess(2));
}

#[test]
fn rejects_missing_magic_and_short_input() {
    let mut b = record(2, 1, "x", "", 0.0, 1.0);
    b[0] ^= 1;
    assert_eq!(parse_record(&b).unwrap_err(), CatalogError::InvalidMagic);
    let b = record(2, 1, "x", "", 0.0, 1.0);
    assert_eq!(parse_record(&b[..73]).unwrap_err(), CatalogError::Truncated);
}

#[test]
fn rejects_invalid_text() {
    let mut b = record(2, 1, "abc", "", 0.0, 1.0);
    b[21] = 0xFF;
    assert_eq!(parse_record(&b).unwrap_err(), CatalogError::InvalidText);
    let mut b = record(2, 1, "abc", "ok", 0.0, 1.0);
    b[53] = 0xC3;
    b[54] = 0x28;
    assert_eq!(parse_record(&b).unwrap_err(), CatalogError::InvalidText);
}

#[test]
fn extracts_text_up_to_the_first_zero() {
    let mut field = [0u8; 32];
    field[..10].copy_from_slice(b"led_button");
    assert_eq!(extract_cstring(&field).unwrap(), "led_button");
}

#[test]
fn extracts_the_whole_field_without_a_zero() {
    let field = [b'a'; 32];
    let s = extract_cstring(&field).unwrap();
    assert_eq!(s.len(), 32);
    assert_eq!(s, "a".repeat(32));
}

#[test]
fn extracts_multibyte_text_and_rejects_bad_bytes() {
    let mut field = [0u8; 8];
    field[..3].copy_from_slice("é!".as_bytes());
    assert_eq!(extract_cstring(&field).unwrap(), "é!");
    assert_eq!(extract_cstring(&[0x61, 0xFF, 0x00]).unwrap_err(), CatalogError::InvalidText);
    assert_eq!(extract_cstring(&[0x00, 0xFF]).unwrap(), "");
    assert_eq!(extract_cstring(&[]).unwrap(), "");
}
