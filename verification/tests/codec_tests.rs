use credential_exchange_format::b64url::{B64Url, Base32};

#[test]
fn test_b64url_decode_unpadded() {
    let b = B64Url::decode("ZmllbGQx").unwrap();
    assert_eq!(b.as_bytes().as_slice(), b"field1");
}

#[test]
fn test_b64url_decode_padded() {
    // Trailing padding is tolerated and changes nothing.
    let b = B64Url::decode("ZmllbGQx=").unwrap();
    assert_eq!(b.as_bytes().as_slice(), b"field1");
    let b2 = B64Url::decode("ZmllbGQx==").unwrap();
    assert_eq!(b2.as_bytes().as_slice(), b"field1");
}

#[test]
fn test_b64url_canonical_reencode() {
    // Whatever padding the input had, re-encoding is always unpadded.
    for input in ["ZmllbGQx", "ZmllbGQx="] {
        let b = B64Url::decode(input).unwrap();
        assert_eq!(b.to_string(), "ZmllbGQx");
    }
}

#[test]
fn test_b64url_rejects_bad_symbol() {
    assert!(B64Url::decode("not base64!").is_err());
}

#[test]
fn test_b64url_error_message() {
    let err = B64Url::decode("!!").unwrap_err();
    assert_eq!(err.message(), "Data isn't base64url encoded");
}

#[test]
fn test_b64url_url_safe_alphabet() {
    // The URL-safe alphabet uses '-' and '_', not '+' and '/'.
    let b = B64Url::decode("-_8").unwrap();
    assert_eq!(b.to_string(), "-_8");
    assert!(B64Url::decode("+/8").is_err());
}

#[test]
fn test_base32_decode_case_insensitive() {
    let upper = Base32::decode("MFRGG").unwrap();
    let lower = Base32::decode("mfrgg").unwrap();
    assert_eq!(upper.as_bytes().as_slice(), b"abc");
    assert_eq!(upper, lower);
}

#[test]
fn test_base32_decode_padded() {
    let b = Base32::decode("MFRGG===").unwrap();
    assert_eq!(b.as_bytes().as_slice(), b"abc");
}

#[test]
fn test_base32_canonical_reencode() {
    for input in ["MFRGG", "mfrgg", "MFRGG==="] {
        let b = Base32::decode(input).unwrap();
        assert_eq!(b.to_string(), "MFRGG");
    }
}

#[test]
fn test_base32_rejects_bad_symbol() {
    // '1' is not in the base32 alphabet, and inner spaces are not stripped.
    assert!(Base32::decode("MFR1G").is_err());
    assert!(Base32::decode("MF GG").is_err());
    let err = Base32::decode("11111").unwrap_err();
    assert_eq!(err.message(), "Data isn't base32 encoded");
}

#[test]
fn test_b64url_from_bytes_round_trip() {
    let b = B64Url::from_bytes(vec![0, 1, 2, 250]);
    let text = b.to_string();
    let back = B64Url::decode(text.as_str()).unwrap();
    assert_eq!(back, b);
    assert_eq!(back.into_bytes(), vec![0, 1, 2, 250]);
}

#[test]
fn test_base32_from_slice_round_trip() {
    let b = Base32::from_slice(b"hello world".as_slice());
    let back = Base32::decode(b.to_string().as_str()).unwrap();
    assert_eq!(back.into_bytes(), b"hello world".to_vec());
}
