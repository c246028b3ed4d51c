use credential_exchange_format::json::Json;
use credential_exchange_format::timestamp::{Timestamp, TimestampError};

#[test]
fn test_deserialize_from_unix_timestamp() {
    let result = Timestamp::decode(&Json::Int(1700000000)).unwrap();
    assert_eq!(result, Timestamp { secs: 1700000000 });
}

#[test]
fn test_deserialize_from_iso8601_string() {
    let result = Timestamp::decode(&Json::Str("2023-11-14T22:13:20Z".to_string())).unwrap();
    assert_eq!(result, Timestamp { secs: 1700000000 });
}

#[test]
fn test_deserialize_from_iso8601_with_offset() {
    let result = Timestamp::decode(&Json::Str("2023-11-14T22:13:20+00:00".to_string())).unwrap();
    assert_eq!(result, Timestamp { secs: 1700000000 });
}

#[test]
fn test_serialize_to_unix_timestamp() {
    let timestamp = Timestamp { secs: 1700000000 };
    assert_eq!(timestamp.encode(), Json::Int(1700000000));
}

#[test]
fn test_roundtrip_unix_timestamp() {
    let parsed = Timestamp::decode(&Json::Int(1700000000)).unwrap();
    assert_eq!(parsed.encode(), Json::Int(1700000000));
}

#[test]
fn test_roundtrip_iso8601_to_unix() {
    // An ISO8601 input must serialize to the UNIX timestamp.
    let parsed = Timestamp::decode(&Json::Str("2023-11-14T22:13:20Z".to_string())).unwrap();
    assert_eq!(parsed.encode(), Json::Int(1700000000));
}

#[test]
fn test_deserialize_invalid_timestamp() {
    let result = Timestamp::decode(&Json::Str("not a timestamp".to_string()));
    assert!(result.is_err());
    assert_eq!(result.unwrap_err(), TimestampError::InvalidIso8601);
}

#[test]
fn test_deserialize_invalid_type() {
    let result = Timestamp::decode(&Json::Bool(true));
    assert!(result.is_err());
    assert_eq!(result.unwrap_err(), TimestampError::WrongJsonKind);
}

#[test]
fn test_deserialize_optional_from_unix_timestamp() {
    let result = Timestamp::decode_option(&Json::Int(1700000000)).unwrap();
    assert_eq!(result, Some(Timestamp { secs: 1700000000 }));
}

#[test]
fn test_deserialize_optional_from_iso8601() {
    let result = Timestamp::decode_option(&Json::Str("2023-11-14T22:13:20Z".to_string())).unwrap();
    assert_eq!(result, Some(Timestamp { secs: 1700000000 }));
}

#[test]
fn test_deserialize_optional_null() {
    let result = Timestamp::decode_option(&Json::Null).unwrap();
    assert_eq!(result, None);
}

#[test]
fn test_serialize_optional_some() {
    let timestamp = Some(Timestamp { secs: 1700000000 });
    assert_eq!(Timestamp::encode_option(&timestamp), Json::Int(1700000000));
}

#[test]
fn test_serialize_optional_none() {
    assert_eq!(Timestamp::encode_option(&None), Json::Null);
}

#[test]
fn test_roundtrip_optional_unix_timestamp() {
    let parsed = Timestamp::decode_option(&Json::Int(1700000000)).unwrap();
    assert_eq!(Timestamp::encode_option(&parsed), Json::Int(1700000000));
}

#[test]
fn test_roundtrip_optional_iso8601_to_unix() {
    let parsed = Timestamp::decode_option(&Json::Str("2023-11-14T22:13:20Z".to_string())).unwrap();
    assert_eq!(Timestamp::encode_option(&parsed), Json::Int(1700000000));
}

#[test]
fn test_roundtrip_optional_null() {
    let parsed = Timestamp::decode_option(&Json::Null).unwrap();
    assert_eq!(Timestamp::encode_option(&parsed), Json::Null);
}

#[test]
fn test_deserialize_optional_invalid_timestamp() {
    let result = Timestamp::decode_option(&Json::Str("not a timestamp".to_string()));
    assert!(result.is_err());
}

#[test]
fn test_deserialize_optional_invalid_type() {
    let result = Timestamp::decode_option(&Json::Bool(true));
    assert!(result.is_err());
}

#[test]
fn test_deserialize_out_of_range_timestamp() {
    let result = Timestamp::decode(&Json::Int(i64::MAX));
    assert_eq!(result.unwrap_err(), TimestampError::OutOfRange);
}

#[test]
fn test_dual_format_same_instant() {
    // The two accepted wire forms of one instant decode identically.
    let from_int = Timestamp::decode(&Json::Int(1700000000)).unwrap();
    let from_str = Timestamp::decode(&Json::Str("2023-11-14T22:13:20Z".to_string())).unwrap();
    assert_eq!(from_int, from_str);
    assert_eq!(from_int.encode(), Json::Int(1700000000));
}
