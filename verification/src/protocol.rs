//! The export exchange protocol: request and response envelopes and the
//! HPKE parameter negotiation values, by their IANA registry code points.

use vstd::prelude::*;
use crate::b64url::B64Url;
use crate::text::str_eq;

verus! {

/// The protocol version of an exchange message.
#[derive(Debug, Clone, Copy, PartialEq, Eq, Structural)]
pub enum Version {
    /// The initial protocol version, numbered zero.
    V0,
    /// A version this implementation does not know, kept verbatim.
    Unknown(u8),
}

/// The number of a protocol version.
pub open spec fn version_number(v: Version) -> int {
    match v {
        Version::V0 => 0,
        Version::Unknown(n) => n as int,
    }
}

/// The protocol version a number denotes.
pub open spec fn version_from_number(n: int) -> Version {
    if n == 0 {
        Version::V0
    } else {
        Version::Unknown(n as u8)
    }
}

impl From<u8> for Version {
    /// The version a number denotes.
    fn from(value: u8) -> (r: Self) {
        match value {
            0 => Version::V0,
            v => Version::Unknown(v),
        }
    }
}

impl vstd::std_specs::convert::FromSpecImpl<u8> for Version {
    open spec fn obeys_from_spec() -> bool {
        true
    }

    open spec fn from_spec(v: u8) -> Self {
        version_from_number(v as int)
    }
}

impl From<Version> for u8 {
    /// The number of a version.
    fn from(value: Version) -> (r: u8) {
        match value {
            Version::V0 => 0,
            Version::Unknown(v) => v,
        }
    }
}

impl vstd::std_specs::convert::FromSpecImpl<Version> for u8 {
    open spec fn obeys_from_spec() -> bool {
        true
    }

    open spec fn from_spec(v: Version) -> u8 {
        version_number(v) as u8
    }
}

/// A version whose unknown arm never shadows the known number.
pub open spec fn version_wf(v: Version) -> bool {
    match v {
        Version::Unknown(n) => n != 0,
        _ => true,
    }
}

/// Every version number maps back to itself.
pub proof fn lemma_version_number_round_trip(n: u8)
    ensures
        version_number(version_from_number(n as int)) == n as int,
{
}

/// Every well-formed version maps back to itself.
pub proof fn lemma_version_round_trip(v: Version)
    requires
        version_wf(v),
    ensures
        version_from_number(version_number(v)) == v,
{
}

/// A credential kind requested in an exchange.
#[derive(Debug, Clone, PartialEq, Eq)]
pub enum CredentialType {
    BasicAuth,
    Passkey,
    Totp,
    Note,
    File,
    Address,
    CreditCard,
    DriverLicense,
    SocialSecurityNumber,
    ItemReference,
    /// A kind this implementation does not know, kept verbatim.
    Unknown(String),
}

/// The model of a requested credential kind.
pub enum CredentialTypeV {
    BasicAuth,
    Passkey,
    Totp,
    Note,
    File,
    Address,
    CreditCard,
    DriverLicense,
    SocialSecurityNumber,
    ItemReference,
    Unknown(Seq<char>),
}

impl View for CredentialType {
    type V = CredentialTypeV;

    open spec fn view(&self) -> CredentialTypeV {
        match self {
            CredentialType::BasicAuth => CredentialTypeV::BasicAuth,
            CredentialType::Passkey => CredentialTypeV::Passkey,
            CredentialType::Totp => CredentialTypeV::Totp,
            CredentialType::Note => CredentialTypeV::Note,
            CredentialType::File => CredentialTypeV::File,
            CredentialType::Address => CredentialTypeV::Address,
            CredentialType::CreditCard => CredentialTypeV::CreditCard,
            CredentialType::DriverLicense => CredentialTypeV::DriverLicense,
            CredentialType::SocialSecurityNumber => CredentialTypeV::SocialSecurityNumber,
            CredentialType::ItemReference => CredentialTypeV::ItemReference,
            CredentialType::Unknown(s) => CredentialTypeV::Unknown(s@),
        }
    }
}

/// The requested credential kind a wire name denotes; unknown names are
/// kept.
pub open spec fn credential_type_parsed(s: Seq<char>) -> CredentialTypeV {
    if s == "basic-auth"@ {
        CredentialTypeV::BasicAuth
    } else if s == "passkey"@ {
        CredentialTypeV::Passkey
    } else if s == "totp"@ {
        CredentialTypeV::Totp
    } else if s == "note"@ {
        CredentialTypeV::Note
    } else if s == "file"@ {
        CredentialTypeV::File
    } else if s == "address"@ {
        CredentialTypeV::Address
    } else if s == "credit-card"@ {
        CredentialTypeV::CreditCard
    } else if s == "driver-license"@ {
        CredentialTypeV::DriverLicense
    } else if s == "social-security-number"@ {
        CredentialTypeV::SocialSecurityNumber
    } else if s == "item-reference"@ {
        CredentialTypeV::ItemReference
    } else {
        CredentialTypeV::Unknown(s)
    }
}

/// The wire name of a requested credential kind.
pub open spec fn credential_type_name(v: CredentialTypeV) -> Seq<char> {
    match v {
        CredentialTypeV::BasicAuth => "basic-auth"@,
        CredentialTypeV::Passkey => "passkey"@,
        CredentialTypeV::Totp => "totp"@,
        CredentialTypeV::Note => "note"@,
        CredentialTypeV::File => "file"@,
        CredentialTypeV::Address => "address"@,
        CredentialTypeV::CreditCard => "credit-card"@,
        CredentialTypeV::DriverLicense => "driver-license"@,
        CredentialTypeV::SocialSecurityNumber => "social-security-number"@,
        CredentialTypeV::ItemReference => "item-reference"@,
        CredentialTypeV::Unknown(s) => s,
    }
}

impl CredentialType {
    /// The kind a wire name denotes.
    pub fn from_wire(s: &str) -> (r: Self)
        ensures
            r@ == credential_type_parsed(s@),
    {
        if str_eq(s, "basic-auth") {
            CredentialType::BasicAuth
        } else if str_eq(s, "passkey") {
            CredentialType::Passkey
        } else if str_eq(s, "totp") {
            CredentialType::Totp
        } else if str_eq(s, "note") {
            CredentialType::Note
        } else if str_eq(s, "file") {
            CredentialType::File
        } else if str_eq(s, "address") {
            CredentialType::Address
        } else if str_eq(s, "credit-card") {
            CredentialType::CreditCard
        } else if str_eq(s, "driver-license") {
            CredentialType::DriverLicense
        } else if str_eq(s, "social-security-number") {
            CredentialType::SocialSecurityNumber
        } else if str_eq(s, "item-reference") {
            CredentialType::ItemReference
        } else {
            CredentialType::Unknown(s.to_owned())
        }
    }

    /// The kind's wire name.
    pub fn wire_name(&self) -> (r: String)
        ensures
            r@ == credential_type_name(self@),
    {
        match self {
            CredentialType::BasicAuth => "basic-auth".to_owned(),
            CredentialType::Passkey => "passkey".to_owned(),
            CredentialType::Totp => "totp".to_owned(),
            CredentialType::Note => "note".to_owned(),
            CredentialType::File => "file".to_owned(),
            CredentialType::Address => "address".to_owned(),
            CredentialType::CreditCard => "credit-card".to_owned(),
            CredentialType::DriverLicense => "driver-license".to_owned(),
            CredentialType::SocialSecurityNumber => "social-security-number".to_owned(),
            CredentialType::ItemReference => "item-reference".to_owned(),
            CredentialType::Unknown(s) => s.clone(),
        }
    }
}

/// An extension the importer announces to understand.
#[derive(Debug, Clone, PartialEq, Eq)]
pub enum KnownExtension {
    Shared,
    /// An extension this implementation does not know, kept verbatim.
    Unknown(String),
}

/// The model of an announced extension.
pub enum KnownExtensionV {
    Shared,
    Unknown(Seq<char>),
}

impl View for KnownExtension {
    type V = KnownExtensionV;

    open spec fn view(&self) -> KnownExtensionV {
        match self {
            KnownExtension::Shared => KnownExtensionV::Shared,
            KnownExtension::Unknown(s) => KnownExtensionV::Unknown(s@),
        }
    }
}

/// The announced extension a wire name denotes; unknown names are kept.
pub open spec fn known_extension_parsed(s: Seq<char>) -> KnownExtensionV {
    if s == "shared"@ {
        KnownExtensionV::Shared
    } else {
        KnownExtensionV::Unknown(s)
    }
}

/// The wire name of an announced extension.
pub open spec fn known_extension_name(v: KnownExtensionV) -> Seq<char> {
    match v {
        KnownExtensionV::Shared => "shared"@,
        KnownExtensionV::Unknown(s) => s,
    }
}

impl KnownExtension {
    /// The announced extension a wire name denotes.
    pub fn from_wire(s: &str) -> (r: Self)
        ensures
            r@ == known_extension_parsed(s@),
    {
        if str_eq(s, "shared") {
            KnownExtension::Shared
        } else {
            KnownExtension::Unknown(s.to_owned())
        }
    }

    /// The announced extension's wire name.
    pub fn wire_name(&self) -> (r: String)
        ensures
            r@ == known_extension_name(self@),
    {
        match self {
            KnownExtension::Shared => "shared".to_owned(),
            KnownExtension::Unknown(s) => s.clone(),
        }
    }
}

/// An HPKE mode.
#[derive(Debug, Clone, PartialEq, Eq)]
pub enum HpkeMode {
    Base,
    Psk,
    Auth,
    AuthPsk,
    /// A mode this implementation does not know, kept verbatim.
    Unknown(String),
}

/// The model of an HPKE mode.
pub enum HpkeModeV {
    Base,
    Psk,
    Auth,
    AuthPsk,
    Unknown(Seq<char>),
}

impl View for HpkeMode {
    type V = HpkeModeV;

    open spec fn view(&self) -> HpkeModeV {
        match self {
            HpkeMode::Base => HpkeModeV::Base,
            HpkeMode::Psk => HpkeModeV::Psk,
            HpkeMode::Auth => HpkeModeV::Auth,
            HpkeMode::AuthPsk => HpkeModeV::AuthPsk,
            HpkeMode::Unknown(s) => HpkeModeV::Unknown(s@),
        }
    }
}

/// The mode an HPKE wire name denotes; an unknown name is kept.
pub open spec fn hpke_mode_parsed(s: Seq<char>) -> HpkeModeV {
    if s == "base"@ {
        HpkeModeV::Base
    } else if s == "psk"@ {
        HpkeModeV::Psk
    } else if s == "auth"@ {
        HpkeModeV::Auth
    } else if s == "auth-psk"@ {
        HpkeModeV::AuthPsk
    } else {
        HpkeModeV::Unknown(s)
    }
}

/// The wire name of an HPKE mode.
pub open spec fn hpke_mode_name(v: HpkeModeV) -> Seq<char> {
    match v {
        HpkeModeV::Base => "base"@,
        HpkeModeV::Psk => "psk"@,
        HpkeModeV::Auth => "auth"@,
        HpkeModeV::AuthPsk => "auth-psk"@,
        HpkeModeV::Unknown(s) => s,
    }
}

impl HpkeMode {
    /// The mode a wire name denotes.
    pub fn from_wire(s: &str) -> (r: Self)
        ensures
            r@ == hpke_mode_parsed(s@),
    {
        if str_eq(s, "base") {
            HpkeMode::Base
        } else if str_eq(s, "psk") {
            HpkeMode::Psk
        } else if str_eq(s, "auth") {
            HpkeMode::Auth
        } else if str_eq(s, "auth-psk") {
            HpkeMode::AuthPsk
        } else {
            HpkeMode::Unknown(s.to_owned())
        }
    }

    /// The mode's wire name.
    pub fn wire_name(&self) -> (r: String)
        ensures
            r@ == hpke_mode_name(self@),
    {
        match self {
            HpkeMode::Base => "base".to_owned(),
            HpkeMode::Psk => "psk".to_owned(),
            HpkeMode::Auth => "auth".to_owned(),
            HpkeMode::AuthPsk => "auth-psk".to_owned(),
            HpkeMode::Unknown(s) => s.clone(),
        }
    }
}

/// An HPKE key encapsulation mechanism, by its registry code point.
#[derive(Debug, Clone, Copy, PartialEq, Eq, Structural)]
pub enum HpkeKem {
    Reserved,
    DhP256,
    DhP384,
    DhP521,
    DhCP256,
    DhCP384,
    DhCP521,
    DhSecP256K1,
    DhX25519,
    DhX448,
    X25519Kyber768Draft00,
    /// A code point without an assigned mechanism, kept verbatim.
    Unasssigned(u16),
}

/// The registry code point of a key encapsulation mechanism.
pub open spec fn kem_code(k: HpkeKem) -> int {
    match k {
        HpkeKem::Reserved => 0x0000,
        HpkeKem::DhP256 => 0x0010,
        HpkeKem::DhP384 => 0x0011,
        HpkeKem::DhP521 => 0x0012,
        HpkeKem::DhCP256 => 0x0013,
        HpkeKem::DhCP384 => 0x0014,
        HpkeKem::DhCP521 => 0x0015,
        HpkeKem::DhSecP256K1 => 0x0016,
        HpkeKem::DhX25519 => 0x0020,
        HpkeKem::DhX448 => 0x0021,
        HpkeKem::X25519Kyber768Draft00 => 0x0030,
        HpkeKem::Unasssigned(u) => u as int,
    }
}

/// The key encapsulation mechanism a code point denotes.
pub open spec fn kem_from_code(v: int) -> HpkeKem {
    if v == 0x0000 {
        HpkeKem::Reserved
    } else if v == 0x0010 {
        HpkeKem::DhP256
    } else if v == 0x0011 {
        HpkeKem::DhP384
    } else if v == 0x0012 {
        HpkeKem::DhP521
    } else if v == 0x0013 {
        HpkeKem::DhCP256
    } else if v == 0x0014 {
        HpkeKem::DhCP384
    } else if v == 0x0015 {
        HpkeKem::DhCP521
    } else if v == 0x0016 {
        HpkeKem::DhSecP256K1
    } else if v == 0x0020 {
        HpkeKem::DhX25519
    } else if v == 0x0021 {
        HpkeKem::DhX448
    } else if v == 0x0030 {
        HpkeKem::X25519Kyber768Draft00
    } else {
        HpkeKem::Unasssigned(v as u16)
    }
}

impl From<u16> for HpkeKem {
    /// The mechanism a code point denotes.
    fn from(value: u16) -> (r: Self) {
        match value {
            0x0000 => HpkeKem::Reserved,
            0x0010 => HpkeKem::DhP256,
            0x0011 => HpkeKem::DhP384,
            0x0012 => HpkeKem::DhP521,
            0x0013 => HpkeKem::DhCP256,
            0x0014 => HpkeKem::DhCP384,
            0x0015 => HpkeKem::DhCP521,
            0x0016 => HpkeKem::DhSecP256K1,
            0x0020 => HpkeKem::DhX25519,
            0x0021 => HpkeKem::DhX448,
            0x0030 => HpkeKem::X25519Kyber768Draft00,
            u => HpkeKem::Unasssigned(u),
        }
    }
}

impl vstd::std_specs::convert::FromSpecImpl<u16> for HpkeKem {
    open spec fn obeys_from_spec() -> bool {
        true
    }

    open spec fn from_spec(v: u16) -> Self {
        kem_from_code(v as int)
    }
}

impl From<HpkeKem> for u16 {
    /// The code point of a mechanism.
    fn from(value: HpkeKem) -> (r: u16) {
        match value {
            HpkeKem::Reserved => 0x0000,
            HpkeKem::DhP256 => 0x0010,
            HpkeKem::DhP384 => 0x0011,
            HpkeKem::DhP521 => 0x0012,
            HpkeKem::DhCP256 => 0x0013,
            HpkeKem::DhCP384 => 0x0014,
            HpkeKem::DhCP521 => 0x0015,
            HpkeKem::DhSecP256K1 => 0x0016,
            HpkeKem::DhX25519 => 0x0020,
            HpkeKem::DhX448 => 0x0021,
            HpkeKem::X25519Kyber768Draft00 => 0x0030,
            HpkeKem::Unasssigned(u) => u,
        }
    }
}

impl vstd::std_specs::convert::FromSpecImpl<HpkeKem> for u16 {
    open spec fn obeys_from_spec() -> bool {
        true
    }

    open spec fn from_spec(v: HpkeKem) -> u16 {
        kem_code(v) as u16
    }
}

/// A mechanism whose unassigned arm never shadows an assigned code point.
pub open spec fn kem_wf(k: HpkeKem) -> bool {
    match k {
        HpkeKem::Unasssigned(u) => kem_from_code(u as int) == k,
        _ => true,
    }
}

/// Every code point maps back to itself.
pub proof fn lemma_kem_code_round_trip(v: u16)
    ensures
        kem_code(kem_from_code(v as int)) == v as int,
{
}

/// Every well-formed mechanism maps back to itself.
pub proof fn lemma_kem_round_trip(k: HpkeKem)
    requires
        kem_wf(k),
    ensures
        kem_from_code(kem_code(k)) == k,
{
}

/// An HPKE key derivation function, by its registry code point.
#[derive(Debug, Clone, Copy, PartialEq, Eq, Structural)]
pub enum HpkeKdf {
    Reserved,
    HkdfSha256,
    HkdfSha384,
    HkdfSha512,
    /// A code point without an assigned function, kept verbatim.
    Unassigned(u16),
}

/// The registry code point of a key derivation function.
pub open spec fn kdf_code(k: HpkeKdf) -> int {
    match k {
        HpkeKdf::Reserved => 0x0000,
        HpkeKdf::HkdfSha256 => 0x0001,
        HpkeKdf::HkdfSha384 => 0x0002,
        HpkeKdf::HkdfSha512 => 0x0003,
        HpkeKdf::Unassigned(u) => u as int,
    }
}

/// The key derivation function a code point denotes.
pub open spec fn kdf_from_code(v: int) -> HpkeKdf {
    if v == 0x0000 {
        HpkeKdf::Reserved
    } else if v == 0x0001 {
        HpkeKdf::HkdfSha256
    } else if v == 0x0002 {
        HpkeKdf::HkdfSha384
    } else if v == 0x0003 {
        HpkeKdf::HkdfSha512
    } else {
        HpkeKdf::Unassigned(v as u16)
    }
}

impl From<u16> for HpkeKdf {
    /// The function a code point denotes.
    fn from(value: u16) -> (r: HpkeKdf) {
        match value {
            0x0000 => HpkeKdf::Reserved,
            0x0001 => HpkeKdf::HkdfSha256,
            0x0002 => HpkeKdf::HkdfSha384,
            0x0003 => HpkeKdf::HkdfSha512,
            u => HpkeKdf::Unassigned(u),
        }
    }
}

impl vstd::std_specs::convert::FromSpecImpl<u16> for HpkeKdf {
    open spec fn obeys_from_spec() -> bool {
        true
    }

    open spec fn from_spec(v: u16) -> Self {
        kdf_from_code(v as int)
    }
}

impl From<HpkeKdf> for u16 {
    /// The code point of a function.
    fn from(value: HpkeKdf) -> (r: u16) {
        match value {
            HpkeKdf::Reserved => 0x0000,
            HpkeKdf::HkdfSha256 => 0x0001,
            HpkeKdf::HkdfSha384 => 0x0002,
            HpkeKdf::HkdfSha512 => 0x0003,
            HpkeKdf::Unassigned(u) => u,
        }
    }
}

impl vstd::std_specs::convert::FromSpecImpl<HpkeKdf> for u16 {
    open spec fn obeys_from_spec() -> bool {
        true
    }

    open spec fn from_spec(v: HpkeKdf) -> u16 {
        kdf_code(v) as u16
    }
}

/// A function whose unassigned arm never shadows an assigned code point.
pub open spec fn kdf_wf(k: HpkeKdf) -> bool {
    match k {
        HpkeKdf::Unassigned(u) => kdf_from_code(u as int) == k,
        _ => true,
    }
}

/// Every code point maps back to itself.
pub proof fn lemma_kdf_code_round_trip(v: u16)
    ensures
        kdf_code(kdf_from_code(v as int)) == v as int,
{
}

/// Every well-formed function maps back to itself.
pub proof fn lemma_kdf_round_trip(k: HpkeKdf)
    requires
        kdf_wf(k),
    ensures
        kdf_from_code(kdf_code(k)) == k,
{
}

/// An HPKE authenticated encryption algorithm, by its registry code point.
#[derive(Debug, Clone, Copy, PartialEq, Eq, Structural)]
pub enum HpkeAead {
    Reserved,
    Aes128Gcm,
    Aes256Gcm,
    ChaCha20Poly1305,
    /// A code point without an assigned algorithm, kept verbatim.
    Unassigned(u16),
    ExportOnly,
}

/// The registry code point of an authenticated encryption algorithm.
pub open spec fn aead_code(k: HpkeAead) -> int {
    match k {
        HpkeAead::Reserved => 0x0000,
        HpkeAead::Aes128Gcm => 0x0001,
        HpkeAead::Aes256Gcm => 0x0002,
        HpkeAead::ChaCha20Poly1305 => 0x0003,
        HpkeAead::Unassigned(u) => u as int,
        HpkeAead::ExportOnly => 0xFFFF,
    }
}

/// The authenticated encryption algorithm a code point denotes.
pub open spec fn aead_from_code(v: int) -> HpkeAead {
    if v == 0x0000 {
        HpkeAead::Reserved
    } else if v == 0x0001 {
        HpkeAead::Aes128Gcm
    } else if v == 0x0002 {
        HpkeAead::Aes256Gcm
    } else if v == 0x0003 {
        HpkeAead::ChaCha20Poly1305
    } else if v == 0xFFFF {
        HpkeAead::ExportOnly
    } else {
        HpkeAead::Unassigned(v as u16)
    }
}

impl From<u16> for HpkeAead {
    /// The algorithm a code point denotes.
    fn from(value: u16) -> (r: HpkeAead) {
        match value {
            0x0000 => HpkeAead::Reserved,
            0x0001 => HpkeAead::Aes128Gcm,
            0x0002 => HpkeAead::Aes256Gcm,
            0x0003 => HpkeAead::ChaCha20Poly1305,
            0xFFFF => HpkeAead::ExportOnly,
            u => HpkeAead::Unassigned(u),
        }
    }
}

impl vstd::std_specs::convert::FromSpecImpl<u16> for HpkeAead {
    open spec fn obeys_from_spec() -> bool {
        true
    }

    open spec fn from_spec(v: u16) -> Self {
        aead_from_code(v as int)
    }
}

impl From<HpkeAead> for u16 {
    /// The code point of an algorithm.
    fn from(value: HpkeAead) -> (r: u16) {
        match value {
            HpkeAead::Reserved => 0x0000,
            HpkeAead::Aes128Gcm => 0x0001,
            HpkeAead::Aes256Gcm => 0x0002,
            HpkeAead::ChaCha20Poly1305 => 0x0003,
            HpkeAead::Unassigned(u) => u,
            HpkeAead::ExportOnly => 0xFFFF,
        }
    }
}

impl vstd::std_specs::convert::FromSpecImpl<HpkeAead> for u16 {
    open spec fn obeys_from_spec() -> bool {
        true
    }

    open spec fn from_spec(v: HpkeAead) -> u16 {
        aead_code(v) as u16
    }
}

/// An algorithm whose unassigned arm never shadows an assigned code point.
pub open spec fn aead_wf(k: HpkeAead) -> bool {
    match k {
        HpkeAead::Unassigned(u) => aead_from_code(u as int) == k,
        _ => true,
    }
}

/// Every code point maps back to itself.
pub proof fn lemma_aead_code_round_trip(v: u16)
    ensures
        aead_code(aead_from_code(v as int)) == v as int,
{
}

/// Every well-formed algorithm maps back to itself.
pub proof fn lemma_aead_round_trip(k: HpkeAead)
    requires
        aead_wf(k),
    ensures
        aead_from_code(aead_code(k)) == k,
{
}

/// The declared key type of the jose_jwk crate: a JSON Web Key. Carried
/// opaquely; this crate never inspects it.
#[verifier::external_type_specification]
#[verifier::external_body]
pub struct ExJwk(jose_jwk::Jwk);

/// One HPKE parameter set offered or chosen in an exchange.
#[derive(Debug, Clone)]
pub struct HpkeParameters {
    /// The HPKE mode.
    pub mode: HpkeMode,
    /// The key encapsulation mechanism.
    pub kem: HpkeKem,
    /// The key derivation function.
    pub kdf: HpkeKdf,
    /// The authenticated encryption algorithm.
    pub aead: HpkeAead,
    /// The importer's public key, when the mode requires one. The key is
    /// ephemeral, so equality of parameter sets ignores it.
    pub key: Option<jose_jwk::Jwk>,
}

impl PartialEq for HpkeParameters {
    /// Two parameter sets are equal when their negotiated algorithms are,
    /// the ephemeral key explicitly ignored.
    fn eq(&self, other: &Self) -> (r: bool) {
        let m = match (&self.mode, &other.mode) {
            (HpkeMode::Base, HpkeMode::Base) => true,
            (HpkeMode::Psk, HpkeMode::Psk) => true,
            (HpkeMode::Auth, HpkeMode::Auth) => true,
            (HpkeMode::AuthPsk, HpkeMode::AuthPsk) => true,
            (HpkeMode::Unknown(a), HpkeMode::Unknown(b)) => str_eq(a.as_str(), b.as_str()),
            _ => false,
        };
        m && self.kem == other.kem && self.kdf == other.kdf && self.aead == other.aead
    }
}

impl vstd::std_specs::cmp::PartialEqSpecImpl for HpkeParameters {
    open spec fn obeys_eq_spec() -> bool {
        true
    }

    open spec fn eq_spec(&self, other: &Self) -> bool {
        self.mode@ == other.mode@ && self.kem == other.kem && self.kdf == other.kdf && self.aead
            == other.aead
    }
}

/// A request to export credentials.
#[derive(Debug)]
pub struct ExportRequest {
    /// The protocol version of the request.
    pub version: Version,
    /// The HPKE parameter sets the importer accepts.
    pub hpke: Vec<HpkeParameters>,
    /// The importing provider's identifier.
    pub importer: String,
    /// The credential kinds the importer asks for, if restricted.
    pub credential_types: Option<Vec<CredentialType>>,
    /// The extensions the importer understands, if announced.
    pub known_extensions: Option<Vec<KnownExtension>>,
}

/// A response carrying an exported payload.
#[derive(Debug)]
pub struct ExportResponse {
    /// The protocol version of the response.
    pub version: Version,
    /// The HPKE parameter set the exporter chose.
    pub hpke: HpkeParameters,
    /// The exporting provider's identifier.
    pub exporter: String,
    /// The encrypted exchange payload, carried as base64url.
    pub payload: B64Url,
}

/// A response reporting that the exchange failed.
#[derive(Debug, Clone, PartialEq, Eq)]
pub struct ErrorResponse {
    /// The protocol version of the response.
    pub version: Version,
    /// Why the exchange failed.
    pub error: ErrorCode,
}

/// Why an exchange failed.
#[derive(Debug, Clone, Copy, PartialEq, Eq, Structural)]
pub enum ErrorCode {
    /// A user confirmation was refused, cancelling the exchange.
    UserCanceled,
    /// The exporter supports none of the requested HPKE parameter sets.
    IncompatibleHpkeParameters,
    /// The importer did not provide a key the parameters require.
    MissingImporterKey,
    /// The importer provided an invalid key for the parameters.
    IncorrectImporterKeyEncoding,
    /// The exporter does not support the requested protocol version.
    UnsupportedVersion,
    /// The request could not be parsed as JSON.
    InvalidJson,
    /// The exporter refused the export by policy.
    ForbiddenAction,
}

} // verus!
