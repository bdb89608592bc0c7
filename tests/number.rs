use now_proto_pdu::{PduError, VarU32};

fn var_u32_case(value: u32, expected_encoded: &[u8]) {
    let mut encoded = Vec::new();
    let v = VarU32::new(value).unwrap();
    v.encode(&mut encoded);
    assert_eq!(encoded.len(), expected_encoded.len());
    assert_eq!(v.size(), expected_encoded.len());
    assert_eq!(encoded.as_slice(), expected_encoded);
    let (decoded, end) = VarU32::decode(&encoded, 0).unwrap();
    assert_eq!(decoded.value(), value);
    assert_eq!(end, encoded.len());
}

#[test]
fn var_u32_roundtrip_zero() {
    var_u32_case(0x00, &[0x00]);
}

#[test]
fn var_u32_roundtrip_one_byte_max() {
    var_u32_case(0x3F, &[0x3F]);
}

#[test]
fn var_u32_roundtrip_two_bytes_min() {
    var_u32_case(0x40, &[0x40, 0x40]);
}

#[test]
fn var_u32_roundtrip_three_bytes() {
    var_u32_case(0x14000, &[0x81, 0x40, 0x00]);
}

#[test]
fn var_u32_roundtrip_max() {
    var_u32_case(0x3FFFFFFF, &[0xFF, 0xFF, 0xFF, 0xFF]);
}

#[test]
fn constructed_var_int_too_large() {
    VarU32::new(0x40000000).unwrap_err();
}

#[test]
fn var_u32_new_too_large_is_invalid_field() {
    assert!(VarU32::new(0x40000000).unwrap_err().is_invalid_field());
    assert!(VarU32::new(u32::MAX).is_err());
    assert_eq!(VarU32::new(VarU32::MAX).unwrap().value(), 0x3FFFFFFF);
}

#[test]
fn var_u32_decode_truncated() {
    let err = VarU32::decode(&[0x81, 0x40], 0).unwrap_err();
    assert!(matches!(err, PduError::NotEnoughBytes { .. }));
    assert!(VarU32::decode(&[], 0).unwrap_err().is_not_enough_bytes());
}

#[test]
fn var_u32_decode_rejects_non_minimal() {
    // 0x05 spelled on two bytes.
    let err = VarU32::decode(&[0x40, 0x05], 0).unwrap_err();
    assert!(err.is_invalid_field());
}

#[test]
fn var_u32_decode_at_offset() {
    let (v, end) = VarU32::decode(&[0xAA, 0x40, 0x40, 0xBB], 1).unwrap();
    assert_eq!(v.value(), 0x40);
    assert_eq!(end, 3);
}
