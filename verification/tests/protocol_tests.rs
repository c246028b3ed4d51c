use credential_exchange_format::protocol::{
    CredentialType, ErrorCode, ErrorResponse, HpkeAead, HpkeKdf, HpkeKem, HpkeMode,
    HpkeParameters, KnownExtension, Version,
};

#[test]
fn test_version_conversions() {
    assert_eq!(Version::from(0u8), Version::V0);
    assert_eq!(Version::from(3u8), Version::Unknown(3));
    assert_eq!(u8::from(Version::V0), 0);
    assert_eq!(u8::from(Version::Unknown(7)), 7);
}

#[test]
fn test_kem_code_points() {
    assert_eq!(HpkeKem::from(0x0010u16), HpkeKem::DhP256);
    assert_eq!(HpkeKem::from(0x0020u16), HpkeKem::DhX25519);
    assert_eq!(HpkeKem::from(0x0030u16), HpkeKem::X25519Kyber768Draft00);
    assert_eq!(HpkeKem::from(0x0017u16), HpkeKem::Unasssigned(0x0017));
    assert_eq!(u16::from(HpkeKem::DhP521), 0x0012);
}

#[test]
fn test_kem_round_trips_every_code() {
    for code in [0x0000u16, 0x0001, 0x0010, 0x0016, 0x001F, 0x0020, 0x0021, 0x0030, 0xFFFF] {
        assert_eq!(u16::from(HpkeKem::from(code)), code);
    }
}

#[test]
fn test_kdf_code_points() {
    assert_eq!(HpkeKdf::from(0x0001u16), HpkeKdf::HkdfSha256);
    assert_eq!(HpkeKdf::from(0x0004u16), HpkeKdf::Unassigned(4));
    assert_eq!(u16::from(HpkeKdf::HkdfSha512), 0x0003);
}

#[test]
fn test_aead_code_points() {
    assert_eq!(HpkeAead::from(0x0002u16), HpkeAead::Aes256Gcm);
    assert_eq!(HpkeAead::from(0xFFFFu16), HpkeAead::ExportOnly);
    assert_eq!(HpkeAead::from(0x0009u16), HpkeAead::Unassigned(9));
    assert_eq!(u16::from(HpkeAead::ExportOnly), 0xFFFF);
    assert_eq!(u16::from(HpkeAead::ChaCha20Poly1305), 0x0003);
}

#[test]
fn test_hpke_parameters_eq_ignores_key() {
    let a = HpkeParameters {
        mode: HpkeMode::Base,
        kem: HpkeKem::DhX25519,
        kdf: HpkeKdf::HkdfSha256,
        aead: HpkeAead::Aes256Gcm,
        key: None,
    };
    let b = HpkeParameters {
        mode: HpkeMode::Base,
        kem: HpkeKem::DhX25519,
        kdf: HpkeKdf::HkdfSha256,
        aead: HpkeAead::Aes256Gcm,
        key: None,
    };
    assert!(a == b);
    let c = HpkeParameters {
        mode: HpkeMode::Psk,
        kem: HpkeKem::DhX25519,
        kdf: HpkeKdf::HkdfSha256,
        aead: HpkeAead::Aes256Gcm,
        key: None,
    };
    assert!(a != c);
}

#[test]
fn test_credential_type_wire_names() {
    assert_eq!(CredentialType::from_wire("basic-auth"), CredentialType::BasicAuth);
    assert_eq!(CredentialType::from_wire("driver-license"), CredentialType::DriverLicense);
    assert_eq!(
        CredentialType::from_wire("future"),
        CredentialType::Unknown("future".to_string())
    );
    assert_eq!(CredentialType::SocialSecurityNumber.wire_name(), "social-security-number");
}

#[test]
fn test_known_extension_wire_names() {
    assert_eq!(KnownExtension::from_wire("shared"), KnownExtension::Shared);
    assert_eq!(KnownExtension::Shared.wire_name(), "shared");
    assert_eq!(KnownExtension::from_wire("zzz"), KnownExtension::Unknown("zzz".to_string()));
}

#[test]
fn test_error_response() {
    let e = ErrorResponse { version: Version::V0, error: ErrorCode::UserCanceled };
    assert_eq!(e.error, ErrorCode::UserCanceled);
    assert_eq!(e, e.clone());
}
