use credential_exchange_format::b64url::B64Url;
use credential_exchange_format::editable_field::{
    Date, EditableField, EditableFieldBoolean, EditableFieldConcealedString, EditableFieldDate,
    EditableFieldString, EditableFieldWifiNetworkSecurityType, EditableFieldYearMonth, FieldType,
    Month,
};
use credential_exchange_format::json::Json;

fn obj(pairs: Vec<(&str, Json)>) -> Json {
    Json::Obj(pairs.into_iter().map(|(k, v)| (k.to_string(), v)).collect())
}

fn s(text: &str) -> Json {
    Json::Str(text.to_string())
}

#[test]
fn test_serialize_editable_field_string() {
    let field: EditableField<EditableFieldString> = EditableField {
        id: None,
        value: EditableFieldString("value".to_string()),
        label: Some("label".to_string()),
        extensions: None,
    };
    let json = obj(vec![("fieldType", s("string")), ("value", s("value")), ("label", s("label"))]);
    assert_eq!(field.encode(), json);
}

#[test]
fn test_deserialize_field_string() {
    let json = obj(vec![("value", s("value")), ("fieldType", s("string")), ("label", s("label"))]);
    let field: EditableField<EditableFieldString> = EditableField::decode(&json).unwrap();
    assert_eq!(
        field,
        EditableField {
            id: None,
            value: EditableFieldString("value".to_string()),
            label: Some("label".to_string()),
            extensions: None,
        }
    );
}

#[test]
fn test_serialize_field_concealed_string() {
    let field: EditableField<EditableFieldConcealedString> = EditableField {
        id: None,
        value: EditableFieldConcealedString("value".to_string()),
        label: Some("label".to_string()),
        extensions: None,
    };
    let json = obj(vec![
        ("fieldType", s("concealed-string")),
        ("value", s("value")),
        ("label", s("label")),
    ]);
    assert_eq!(field.encode(), json);
}

#[test]
fn test_deserialize_field_wrong_type() {
    let json = obj(vec![("value", s("value")), ("fieldType", s("string")), ("label", s("label"))]);
    let field: Result<EditableField<EditableFieldConcealedString>, _> = EditableField::decode(
        &json,
    );
    assert!(field.is_err());
}

#[test]
fn test_deserialize_field_bad_value_string() {
    let json = obj(vec![("value", Json::Int(5)), ("fieldType", s("string")), ("label", s("label"))]);
    let field: Result<EditableField<EditableFieldString>, _> = EditableField::decode(&json);
    assert!(field.is_err());
}

#[test]
fn test_deserialize_field_bad_value_bool() {
    let json = obj(vec![("value", s("bad")), ("fieldType", s("bool")), ("label", s("label"))]);
    let field: Result<EditableField<EditableFieldBoolean>, _> = EditableField::decode(&json);
    assert!(field.is_err());
}

#[test]
fn test_deserialize_field_missing_type() {
    let json = obj(vec![("value", s("value")), ("label", s("label"))]);
    let field: Result<EditableField<EditableFieldConcealedString>, _> = EditableField::decode(
        &json,
    );
    assert!(field.is_err());
}

#[test]
fn test_deserialize_field_concealed_string() {
    let json = obj(vec![
        ("value", s("value")),
        ("fieldType", s("concealed-string")),
        ("label", s("label")),
    ]);
    let field: EditableField<EditableFieldConcealedString> = EditableField::decode(&json).unwrap();
    assert_eq!(
        field,
        EditableField {
            id: None,
            value: EditableFieldConcealedString("value".to_string()),
            label: Some("label".to_string()),
            extensions: None,
        }
    );
}

#[test]
fn test_serialize_field_boolean() {
    let field: EditableField<EditableFieldBoolean> = EditableField {
        id: None,
        value: EditableFieldBoolean(true),
        label: Some("label".to_string()),
        extensions: None,
    };
    let json = obj(vec![("fieldType", s("boolean")), ("value", s("true")), ("label", s("label"))]);
    assert_eq!(field.encode(), json);
}

#[test]
fn test_serialize_field_date() {
    let field: EditableField<EditableFieldDate> = EditableField {
        id: None,
        value: EditableFieldDate(Date { year: 2025, month: 2, day: 24 }),
        label: None,
        extensions: None,
    };
    let json = obj(vec![("fieldType", s("date")), ("value", s("2025-02-24"))]);
    assert_eq!(field.encode(), json);
}

#[test]
fn test_serialize_editable_field_year_month() {
    let field: EditableField<EditableFieldYearMonth> = EditableField {
        id: None,
        value: EditableFieldYearMonth { year: 2025, month: Month::February },
        label: None,
        extensions: None,
    };
    let json = obj(vec![("fieldType", s("year-month")), ("value", s("2025-02"))]);
    assert_eq!(field.encode(), json);
}

#[test]
fn test_deserialize_editable_field_year_month() {
    let json = obj(vec![("fieldType", s("year-month")), ("value", s("2025-02"))]);
    let field: EditableField<EditableFieldYearMonth> = EditableField::decode(&json).unwrap();
    assert_eq!(
        field,
        EditableField {
            id: None,
            value: EditableFieldYearMonth { year: 2025, month: Month::February },
            label: None,
            extensions: None,
        }
    );
}

#[test]
fn test_deserialize_editable_field_year_month_invalid_format() {
    let json = obj(vec![("fieldType", s("year-month")), ("value", s("2025/02"))]);
    let field: Result<EditableField<EditableFieldYearMonth>, _> = EditableField::decode(&json);
    assert!(field.is_err());
}

#[test]
fn test_tag_enforcement() {
    // The same wire object decodes under the kind its tag names, and only
    // under that kind.
    let json = obj(vec![("fieldType", s("string")), ("value", s("x"))]);
    let as_concealed: Result<EditableField<EditableFieldConcealedString>, _> =
        EditableField::decode(&json);
    assert!(as_concealed.is_err());
    let as_string: EditableField<EditableFieldString> = EditableField::decode(&json).unwrap();
    assert_eq!(as_string.value, EditableFieldString("x".to_string()));
}

#[test]
fn test_field_round_trip_string() {
    let field: EditableField<EditableFieldString> = EditableField {
        id: Some(B64Url::from_slice(b"field1".as_slice())),
        value: EditableFieldString("hello".to_string()),
        label: Some("a label".to_string()),
        extensions: None,
    };
    let decoded: EditableField<EditableFieldString> =
        EditableField::decode(&field.encode()).unwrap();
    assert_eq!(decoded, field);
}

#[test]
fn test_field_round_trip_boolean() {
    let field: EditableField<EditableFieldBoolean> = EditableField {
        id: None,
        value: EditableFieldBoolean(false),
        label: None,
        extensions: None,
    };
    let decoded: EditableField<EditableFieldBoolean> =
        EditableField::decode(&field.encode()).unwrap();
    assert_eq!(decoded, field);
}

#[test]
fn test_field_round_trip_date() {
    let field: EditableField<EditableFieldDate> = EditableField {
        id: None,
        value: EditableFieldDate(Date { year: 2024, month: 2, day: 29 }),
        label: None,
        extensions: None,
    };
    let decoded: EditableField<EditableFieldDate> = EditableField::decode(&field.encode()).unwrap();
    assert_eq!(decoded, field);
}

#[test]
fn test_field_round_trip_wifi_security() {
    let field: EditableField<EditableFieldWifiNetworkSecurityType> = EditableField {
        id: None,
        value: EditableFieldWifiNetworkSecurityType::Wpa3Personal,
        label: None,
        extensions: None,
    };
    let json = field.encode();
    assert_eq!(
        json,
        obj(vec![("fieldType", s("wifi-network-security-type")), ("value", s("wpa3-personal"))])
    );
    let decoded: EditableField<EditableFieldWifiNetworkSecurityType> =
        EditableField::decode(&json).unwrap();
    assert_eq!(decoded, field);
}

#[test]
fn test_boolean_decode_case_insensitive() {
    for text in ["TRUE", "true", "True", "  true "] {
        let json = obj(vec![("fieldType", s("boolean")), ("value", s(text))]);
        let field: EditableField<EditableFieldBoolean> = EditableField::decode(&json).unwrap();
        assert_eq!(field.value, EditableFieldBoolean(true));
    }
    let json = obj(vec![("fieldType", s("boolean")), ("value", s("FALSE"))]);
    let field: EditableField<EditableFieldBoolean> = EditableField::decode(&json).unwrap();
    assert_eq!(field.value, EditableFieldBoolean(false));
    let json = obj(vec![("fieldType", s("boolean")), ("value", s("yes"))]);
    let field: Result<EditableField<EditableFieldBoolean>, _> = EditableField::decode(&json);
    assert!(field.is_err());
}

#[test]
fn test_date_rejects_invalid_day() {
    let json = obj(vec![("fieldType", s("date")), ("value", s("2025-02-30"))]);
    let field: Result<EditableField<EditableFieldDate>, _> = EditableField::decode(&json);
    assert!(field.is_err());
}

#[test]
fn test_field_type_wire_names() {
    assert_eq!(FieldType::String.wire_name(), "string");
    assert_eq!(FieldType::ConcealedString.wire_name(), "concealed-string");
    assert_eq!(FieldType::from_wire("year-month"), FieldType::YearMonth);
    assert_eq!(FieldType::from_wire("something-new"), FieldType::Unknown("something-new".to_string()));
}

#[test]
fn test_field_id_round_trip() {
    // The identifier is re-encoded canonically even when decoded leniently.
    let json = obj(vec![
        ("id", s("ZmllbGQx=")),
        ("fieldType", s("string")),
        ("value", s("x")),
    ]);
    let field: EditableField<EditableFieldString> = EditableField::decode(&json).unwrap();
    let reencoded = field.encode();
    assert_eq!(
        reencoded,
        obj(vec![("id", s("ZmllbGQx")), ("fieldType", s("string")), ("value", s("x"))])
    );
}
