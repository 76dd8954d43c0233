use axml::cursor::AxmlCursor;
use axml::error::FormatError;
use axml::res_value::{DataValueType, ResValue};
use axml::resource_map::{get_resource_string, ResourceMap};

#[test]
fn test_int_boolean_renders_false_on_zero() {
    let v = ResValue { data_type: DataValueType::TypeIntBoolean, data: 0 };
    assert_eq!(v.render(), "false");
}

#[test]
fn test_int_boolean_renders_true_on_nonzero() {
    let v = ResValue { data_type: DataValueType::TypeIntBoolean, data: 5 };
    assert_eq!(v.render(), "true");
}

#[test]
fn test_int_hex_renders_lowercase() {
    let v = ResValue { data_type: DataValueType::TypeIntHex, data: 255 };
    assert_eq!(v.render(), "0xff");
}

#[test]
fn test_int_hex_zero() {
    let v = ResValue { data_type: DataValueType::TypeIntHex, data: 0 };
    assert_eq!(v.render(), "0x0");
}

#[test]
fn test_int_hex_large() {
    let v = ResValue { data_type: DataValueType::TypeIntHex, data: 0xdead_beef };
    assert_eq!(v.render(), "0xdeadbeef");
}

#[test]
fn test_int_dec_renders_decimal() {
    let v = ResValue { data_type: DataValueType::TypeIntDec, data: 4294967295 };
    assert_eq!(v.render(), "4294967295");
}

#[test]
fn test_reference_renders_prefixed_decimal() {
    let v = ResValue { data_type: DataValueType::TypeReference, data: 42 };
    assert_eq!(v.render(), "type1/42");
}

#[test]
fn test_unassigned_variant_renders_empty() {
    let v = ResValue { data_type: DataValueType::TypeFloat, data: 7 };
    assert_eq!(v.render(), "");
}

#[test]
fn test_res_value_from_buff() {
    // size, reserved byte, type tag 0x11 (IntHex), then the data word.
    let mut cursor = AxmlCursor::new(vec![8, 0, 0, 0x11, 0xff, 0, 0, 0]);
    let v = ResValue::from_buff(&mut cursor).unwrap();
    assert_eq!(v.data_type, DataValueType::TypeIntHex);
    assert_eq!(v.data, 255);
}

#[test]
fn test_res_value_unknown_type() {
    let mut cursor = AxmlCursor::new(vec![8, 0, 0, 0x0b, 0xff, 0, 0, 0]);
    let result = ResValue::from_buff(&mut cursor);
    assert_eq!(result.unwrap_err(), FormatError::UnknownValueType(0x0b));
}

#[test]
fn test_res_value_truncated() {
    let mut cursor = AxmlCursor::new(vec![8, 0, 0, 0x11]);
    let result = ResValue::from_buff(&mut cursor);
    assert_eq!(result.unwrap_err(), FormatError::TruncatedInput);
}

#[test]
fn test_resource_string_lookup() {
    assert_eq!(get_resource_string(0x0101_0000).unwrap(), "theme");
    assert_eq!(get_resource_string(0x0101_0001).unwrap(), "label");
    assert_eq!(get_resource_string(0x0101_0003).unwrap(), "name");
    assert_eq!(get_resource_string(0x0101_0010).unwrap(), "exported");
}

#[test]
fn test_resource_string_last_entry() {
    // The table's final entry resolves; one past it does not.
    assert_eq!(get_resource_string(0x0101_0000 + 1328).unwrap(), "colorSecondary");
    assert_eq!(
        get_resource_string(0x0101_0000 + 1329).unwrap_err(),
        FormatError::ResourceIdOutOfRange
    );
}

#[test]
fn test_resource_string_out_of_range() {
    assert_eq!(get_resource_string(0).unwrap_err(), FormatError::ResourceIdOutOfRange);
    assert_eq!(get_resource_string(0x0100_ffff).unwrap_err(), FormatError::ResourceIdOutOfRange);
    assert_eq!(
        get_resource_string(0x0101_0000 + 1_000_000).unwrap_err(),
        FormatError::ResourceIdOutOfRange
    );
}

#[test]
fn test_resource_map_from_buff() {
    // Tag, header size, chunk size 16, then (16 / 4) - 2 = 2 identifiers.
    let mut data = vec![0x80, 0x01, 8, 0, 16, 0, 0, 0];
    data.extend_from_slice(&[0x00, 0x00, 0x01, 0x01]); // 0x01010000
    data.extend_from_slice(&[0x03, 0x00, 0x01, 0x01]); // 0x01010003
    let mut cursor = AxmlCursor::new(data);
    cursor.read_u16().unwrap(); // the dispatcher consumes the tag first
    let map = ResourceMap::from_buff(&mut cursor).unwrap();
    assert_eq!(map.resources_id, vec![0x0101_0000, 0x0101_0003]);
    assert_eq!(map.header.chunk_size, 16);
}

#[test]
fn test_resource_map_truncated() {
    // The chunk announces more identifiers than the buffer holds.
    let mut data = vec![0x80, 0x01, 8, 0, 24, 0, 0, 0];
    data.extend_from_slice(&[0x00, 0x00, 0x01, 0x01]);
    let mut cursor = AxmlCursor::new(data);
    cursor.read_u16().unwrap();
    let result = ResourceMap::from_buff(&mut cursor);
    assert_eq!(result.unwrap_err(), FormatError::TruncatedInput);
}
