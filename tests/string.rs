use now_proto_pdu::{NowVarBuf, NowVarStr};

fn var_str_case(value: &str, expected_encoded: &[u8]) {
    let s = NowVarStr::new(value.to_string()).unwrap();
    let mut encoded = Vec::new();
    s.encode(&mut encoded);
    assert_eq!(encoded.as_slice(), expected_encoded);
    assert_eq!(s.size(), expected_encoded.len());
    let (decoded, end) = NowVarStr::decode(&encoded, 0).unwrap();
    assert_eq!(decoded.value(), value);
    assert_eq!(end, encoded.len());
}

#[test]
fn now_varstr_roundtrip_hello() {
    var_str_case("hello", &[0x05, b'h', b'e', b'l', b'l', b'o', 0x00]);
}

#[test]
fn now_varstr_roundtrip_empty() {
    var_str_case("", &[0x00, 0x00]);
}

#[test]
fn now_varstr_length_counts_utf8_bytes() {
    // Two characters, five UTF-8 bytes.
    var_str_case("é€", &[0x05, 0xC3, 0xA9, 0xE2, 0x82, 0xAC, 0x00]);
}

#[test]
fn decoded_now_varstr_invalid_utf8() {
    let encoded = [0x01, 0xFF, 0x00];
    NowVarStr::decode(&encoded, 0).unwrap_err();
}

#[test]
fn decoded_now_varstr_invalid_utf8_is_invalid_field() {
    let encoded = [0x01, 0xFF, 0x00];
    assert!(NowVarStr::decode(&encoded, 0).unwrap_err().is_invalid_field());
}

#[test]
fn decoded_now_varstr_missing_terminator() {
    let encoded = [0x02, b'h', b'i'];
    assert!(NowVarStr::decode(&encoded, 0).unwrap_err().is_not_enough_bytes());
}

#[test]
fn now_varbuf_roundtrip() {
    let b = NowVarBuf::new(vec![1, 2, 3]).unwrap();
    let mut encoded = Vec::new();
    b.encode(&mut encoded);
    assert_eq!(encoded, vec![0x03, 1, 2, 3]);
    assert_eq!(b.size(), 4);
    let (decoded, end) = NowVarBuf::decode(&encoded, 0).unwrap();
    assert_eq!(decoded.value(), &[1, 2, 3]);
    assert_eq!(end, 4);
}

#[test]
fn now_varbuf_truncated() {
    assert!(NowVarBuf::decode(&[0x03, 1, 2], 0).unwrap_err().is_not_enough_bytes());
}
