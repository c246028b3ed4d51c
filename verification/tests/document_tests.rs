use credential_exchange_format::b64url::B64Url;
use credential_exchange_format::credential::{
    Credential, CustomFieldsCredential, EditableFieldValue, NoteCredential, OTPHashAlgorithm,
    TotpCredential,
};
use credential_exchange_format::document::{
    Account, AndroidAppHashAlgorithm, Collection, CredentialScope, Header, Item, LinkedItem,
};
use credential_exchange_format::editable_field::{
    EditableField, EditableFieldBoolean, EditableFieldString,
};
use credential_exchange_format::extensions::{
    Extension, SharedExtension, SharingAccessor, SharingAccessorPermission, SharingAccessorType,
};
use credential_exchange_format::json::Json;
use credential_exchange_format::timestamp::Timestamp;
use credential_exchange_format::Version;

fn obj(pairs: Vec<(&str, Json)>) -> Json {
    Json::Obj(pairs.into_iter().map(|(k, v)| (k.to_string(), v)).collect())
}

fn s(text: &str) -> Json {
    Json::Str(text.to_string())
}

#[test]
fn test_serialize_custom_fields() {
    let credential = CustomFieldsCredential {
        id: None,
        label: None,
        fields: vec![
            EditableFieldValue::String(EditableField {
                id: Some(B64Url::from_slice(b"field1".as_slice())),
                value: EditableFieldString("hello".into()),
                label: None,
                extensions: None,
            }),
            EditableFieldValue::Boolean(EditableField {
                id: None,
                value: EditableFieldBoolean(false),
                label: None,
                extensions: None,
            }),
        ],
        extensions: vec![],
    };
    let json = obj(vec![(
        "fields",
        Json::Arr(vec![
            obj(vec![("id", s("ZmllbGQx")), ("fieldType", s("string")), ("value", s("hello"))]),
            obj(vec![("fieldType", s("boolean")), ("value", s("false"))]),
        ]),
    )]);
    let mut fields: Vec<(String, Json)> = Vec::new();
    credential.push_entries(&mut fields);
    assert_eq!(Json::Obj(fields), json);
}

#[test]
fn test_deserialize_custom_fields() {
    let json = obj(vec![(
        "fields",
        Json::Arr(vec![
            obj(vec![("fieldType", s("string")), ("value", s("hello"))]),
            obj(vec![("fieldType", s("boolean")), ("value", s("false"))]),
        ]),
    )]);
    let fields = match json {
        Json::Obj(fields) => fields,
        _ => panic!("expected an object"),
    };
    let credential = CustomFieldsCredential::decode_fields(&fields).unwrap();

    assert_eq!(credential.id, None);
    assert_eq!(credential.label, None);
    assert_eq!(credential.extensions.len(), 0);
    assert_eq!(credential.fields.len(), 2);

    match &credential.fields[0] {
        EditableFieldValue::String(field) => {
            assert_eq!(field.value.0, "hello");
        },
        _ => panic!("Expected string field"),
    }

    match &credential.fields[1] {
        EditableFieldValue::Boolean(field) => {
            assert!(!field.value.0);
        },
        _ => panic!("Expected boolean field"),
    }
}

#[test]
fn test_unknown_credential_survival() {
    // A credential of a future kind decodes without loss and re-encodes
    // with the same key and value content.
    let json = obj(vec![
        ("type", s("future-kind")),
        ("mystery", Json::Int(7)),
        ("nested", obj(vec![("deep", Json::Bool(true))])),
    ]);
    let credential = Credential::decode(json.clone()).unwrap();
    match &credential {
        Credential::Unknown { ty, content } => {
            assert_eq!(ty, "future-kind");
            assert_eq!(content.len(), 2);
        },
        _ => panic!("Expected an unknown credential"),
    }
    assert_eq!(credential.encode(), json);
}

#[test]
fn test_known_credential_bad_payload_fails() {
    // A known type with a structurally invalid payload is a hard error.
    let json = obj(vec![("type", s("note"))]);
    assert!(Credential::decode(json).is_err());
}

#[test]
fn test_credential_missing_type_fails() {
    let json = obj(vec![("content", s("hello"))]);
    assert!(Credential::decode(json).is_err());
}

#[test]
fn test_note_credential_round_trip() {
    let note = Credential::Note(Box::new(NoteCredential {
        content: EditableField {
            id: None,
            value: EditableFieldString("remember this".to_string()),
            label: None,
            extensions: None,
        },
    }));
    let json = note.encode();
    let back = Credential::decode(json).unwrap();
    assert_eq!(back, note);
}

#[test]
fn test_totp_credential_round_trip() {
    let secret = credential_exchange_format::b64url::Base32::decode("JBSWY3DPEHPK3PXP").unwrap();
    let totp = Credential::Totp(Box::new(TotpCredential {
        secret,
        period: 30,
        digits: 6,
        username: Some("user@example.com".to_string()),
        algorithm: OTPHashAlgorithm::Sha1,
        issuer: Some("Example".to_string()),
    }));
    let json = totp.encode();
    let back = Credential::decode(json).unwrap();
    assert_eq!(back, totp);
}

#[test]
fn test_shared_extension_round_trip() {
    let ext = Extension::Shared(SharedExtension {
        accessors: vec![SharingAccessor {
            ty: SharingAccessorType::User,
            account_id: B64Url::from_slice(b"acct".as_slice()),
            name: "alice".to_string(),
            permissions: vec![SharingAccessorPermission::Read, SharingAccessorPermission::Manage],
        }],
    });
    let json = ext.encode();
    let back = Extension::decode(json);
    assert_eq!(back, ext);
}

#[test]
fn test_unknown_extension_preserved() {
    let json = obj(vec![("name", s("vendor-extra")), ("payload", Json::Int(9))]);
    let ext = Extension::decode(json.clone());
    assert_eq!(ext, Extension::Unknown(json.clone()));
    assert_eq!(ext.encode(), json);
}

#[test]
fn test_effective_accessors_drop_empty_permission_lists() {
    // An accessor whose permissions become empty after discarding unknown
    // entries is excluded entirely, never kept as a zero-permission grant.
    let shared = SharedExtension {
        accessors: vec![
            SharingAccessor {
                ty: SharingAccessorType::User,
                account_id: B64Url::from_slice(b"a".as_slice()),
                name: "only-unknown".to_string(),
                permissions: vec![SharingAccessorPermission::Unknown("future".to_string())],
            },
            SharingAccessor {
                ty: SharingAccessorType::Group,
                account_id: B64Url::from_slice(b"b".as_slice()),
                name: "kept".to_string(),
                permissions: vec![
                    SharingAccessorPermission::Read,
                    SharingAccessorPermission::Unknown("future".to_string()),
                ],
            },
            SharingAccessor {
                ty: SharingAccessorType::Unknown("robot".to_string()),
                account_id: B64Url::from_slice(b"c".as_slice()),
                name: "unknown-kind".to_string(),
                permissions: vec![SharingAccessorPermission::Read],
            },
        ],
    };
    let effective = shared.effective_accessors();
    assert_eq!(effective.len(), 1);
    assert_eq!(effective[0].name, "kept");
    assert_eq!(effective[0].permissions, vec![SharingAccessorPermission::Read]);
}

#[test]
fn test_credential_scope_round_trip() {
    let scope = CredentialScope {
        urls: vec!["https://example.com".to_string()],
        android_apps: vec![credential_exchange_format::document::AndroidAppIdCredential {
            bundle_id: "com.example.myapp".to_string(),
            certificate: Some(
                credential_exchange_format::document::AndroidAppCertificateFingerprint {
                    fingerprint: B64Url::from_slice(b"hash".as_slice()),
                    hash_algorithm: AndroidAppHashAlgorithm::Sha256,
                },
            ),
            name: Some("My App".to_string()),
        }],
    };
    let json = scope.encode();
    let back = CredentialScope::decode(&json).unwrap();
    assert_eq!(back, scope);
}

#[test]
fn test_linked_item_round_trip() {
    let li = LinkedItem {
        item: B64Url::from_slice(b"item-1".as_slice()),
        account: Some(B64Url::from_slice(b"acct-1".as_slice())),
    };
    let back = LinkedItem::decode(&li.encode()).unwrap();
    assert_eq!(back, li);
}

#[test]
fn test_header_document_round_trip() {
    let header = Header {
        version: Version { major: 1, minor: 0 },
        exporter_rp_id: "exporter.example".to_string(),
        exporter_display_name: "Example Exporter".to_string(),
        timestamp: Timestamp { secs: 1700000000 },
        accounts: vec![Account {
            id: B64Url::from_slice(b"acct".as_slice()),
            username: "alice".to_string(),
            email: "alice@example.com".to_string(),
            full_name: None,
            collections: vec![Collection {
                id: B64Url::from_slice(b"coll".as_slice()),
                creation_at: None,
                modified_at: None,
                title: "Work".to_string(),
                subtitle: None,
                items: vec![LinkedItem {
                    item: B64Url::from_slice(b"item".as_slice()),
                    account: None,
                }],
                sub_collections: Some(vec![]),
                extensions: None,
            }],
            items: vec![Item {
                id: B64Url::from_slice(b"item".as_slice()),
                creation_at: Some(Timestamp { secs: 1700000000 }),
                modified_at: None,
                title: "Login".to_string(),
                subtitle: None,
                favorite: Some(true),
                scope: None,
                credentials: vec![Credential::Note(Box::new(NoteCredential {
                    content: EditableField {
                        id: None,
                        value: EditableFieldString("hello".to_string()),
                        label: None,
                        extensions: None,
                    },
                }))],
                tags: Some(vec!["personal".to_string()]),
                extensions: None,
            }],
            extensions: None,
        }],
    };
    let json = header.encode();
    let back = Header::decode(&json).unwrap();
    assert_eq!(back, header);
    // The decoded document, like any decoded document, re-encodes to the
    // same JSON value.
    assert_eq!(back.encode(), json);
}

#[test]
fn test_item_timestamp_accepts_iso_string() {
    // An item whose creation time arrives as an RFC3339 string decodes to
    // the same instant that an epoch integer would.
    let json = obj(vec![
        ("id", s("aXRlbQ")),
        ("creationAt", s("2023-11-14T22:13:20Z")),
        ("title", s("t")),
        ("credentials", Json::Arr(vec![])),
    ]);
    let item = Item::decode(&json).unwrap();
    assert_eq!(item.creation_at, Some(Timestamp { secs: 1700000000 }));
    // Re-encoding pins the wire form to the epoch integer.
    let reencoded = item.encode();
    match &reencoded {
        Json::Obj(fields) => {
            assert!(fields.contains(&("creationAt".to_string(), Json::Int(1700000000))));
        },
        _ => panic!("expected an object"),
    }
}
