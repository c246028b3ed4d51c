//! Passkeys: WebAuthn credentials and their FIDO2 extension data.

use vstd::prelude::*;
use crate::b64url::{b64url_encoded, b64url_parse, B64Url};
use crate::error::DecodeError;
use crate::json::{fields_view, lookup, Json, JsonV};
use crate::text::str_eq;

verus! {

/// The algorithm of an hmac-secret credential pair.
#[derive(Debug, Clone, PartialEq, Eq)]
pub enum Fido2HmacCredentialAlgorithm {
    HmacSha256,
    /// An algorithm this implementation does not know, kept verbatim.
    Other(String),
}

/// The model of an hmac-secret algorithm.
pub enum Fido2HmacCredentialAlgorithmV {
    HmacSha256,
    Other(Seq<char>),
}

impl View for Fido2HmacCredentialAlgorithm {
    type V = Fido2HmacCredentialAlgorithmV;

    open spec fn view(&self) -> Fido2HmacCredentialAlgorithmV {
        match self {
            Fido2HmacCredentialAlgorithm::HmacSha256 => Fido2HmacCredentialAlgorithmV::HmacSha256,
            Fido2HmacCredentialAlgorithm::Other(s) => Fido2HmacCredentialAlgorithmV::Other(s@),
        }
    }
}

/// The wire name of an hmac-secret algorithm.
pub open spec fn hmac_alg_name(v: Fido2HmacCredentialAlgorithmV) -> Seq<char> {
    match v {
        Fido2HmacCredentialAlgorithmV::HmacSha256 => "hmac-sha256"@,
        Fido2HmacCredentialAlgorithmV::Other(s) => s,
    }
}

/// The hmac-secret algorithm a wire name denotes; an unknown name is kept.
pub open spec fn hmac_alg_parsed(s: Seq<char>) -> Fido2HmacCredentialAlgorithmV {
    if s == "hmac-sha256"@ {
        Fido2HmacCredentialAlgorithmV::HmacSha256
    } else {
        Fido2HmacCredentialAlgorithmV::Other(s)
    }
}

impl Fido2HmacCredentialAlgorithm {
    /// The algorithm a wire name denotes.
    pub fn from_wire(s: &str) -> (r: Self)
        ensures
            r@ == hmac_alg_parsed(s@),
    {
        if str_eq(s, "hmac-sha256") {
            Fido2HmacCredentialAlgorithm::HmacSha256
        } else {
            Fido2HmacCredentialAlgorithm::Other(s.to_owned())
        }
    }

    /// The algorithm's wire name.
    pub fn wire_name(&self) -> (r: String)
        ensures
            r@ == hmac_alg_name(self@),
    {
        match self {
            Fido2HmacCredentialAlgorithm::HmacSha256 => "hmac-sha256".to_owned(),
            Fido2HmacCredentialAlgorithm::Other(s) => s.clone(),
        }
    }
}

/// The credential pair of the hmac-secret extension.
#[derive(Debug, Clone, PartialEq, Eq)]
pub struct Fido2HmacCredentials {
    /// The algorithm the credentials were derived with.
    pub algorithm: Fido2HmacCredentialAlgorithm,
    /// The credential used when user verification was performed.
    pub cred_with_uv: B64Url,
    /// The credential used without user verification.
    pub cred_without_uv: B64Url,
}

/// The model of an hmac-secret credential pair.
pub struct Fido2HmacCredentialsV {
    pub algorithm: Fido2HmacCredentialAlgorithmV,
    pub cred_with_uv: Seq<u8>,
    pub cred_without_uv: Seq<u8>,
}

impl View for Fido2HmacCredentials {
    type V = Fido2HmacCredentialsV;

    open spec fn view(&self) -> Fido2HmacCredentialsV {
        Fido2HmacCredentialsV {
            algorithm: self.algorithm@,
            cred_with_uv: self.cred_with_uv@,
            cred_without_uv: self.cred_without_uv@,
        }
    }
}

/// The field list of an encoded hmac-secret credential pair.
pub open spec fn hmac_credentials_entries(v: Fido2HmacCredentialsV) -> Seq<(Seq<char>, JsonV)> {
    seq![
        ("algorithm"@, JsonV::Str(hmac_alg_name(v.algorithm))),
        ("credWithUV"@, JsonV::Str(b64url_encoded(v.cred_with_uv))),
        ("credWithoutUV"@, JsonV::Str(b64url_encoded(v.cred_without_uv))),
    ]
}

/// What decoding an hmac-secret credential pair yields.
pub open spec fn hmac_credentials_decoded(j: JsonV) -> Result<Fido2HmacCredentialsV, DecodeError> {
    match j {
        JsonV::Obj(o) => match lookup(o, "algorithm"@) {
            Some(JsonV::Str(a)) => match lookup(o, "credWithUV"@) {
                Some(JsonV::Str(w)) => match b64url_parse(w) {
                    Some(with_uv) => match lookup(o, "credWithoutUV"@) {
                        Some(JsonV::Str(wo)) => match b64url_parse(wo) {
                            Some(without_uv) => Ok(
                                Fido2HmacCredentialsV {
                                    algorithm: hmac_alg_parsed(a),
                                    cred_with_uv: with_uv,
                                    cred_without_uv: without_uv,
                                },
                            ),
                            None => Err(DecodeError::InvalidMember),
                        },
                        Some(_) => Err(DecodeError::InvalidMember),
                        None => Err(DecodeError::MissingMember),
                    },
                    None => Err(DecodeError::InvalidMember),
                },
                Some(_) => Err(DecodeError::InvalidMember),
                None => Err(DecodeError::MissingMember),
            },
            Some(_) => Err(DecodeError::InvalidMember),
            None => Err(DecodeError::MissingMember),
        },
        _ => Err(DecodeError::NotAnObject),
    }
}

impl Fido2HmacCredentials {
    /// Decodes an hmac-secret credential pair from a JSON value.
    pub fn decode(j: &Json) -> (r: Result<Self, DecodeError>)
        ensures
            match r {
                Ok(v) => hmac_credentials_decoded(j@) == Ok::<Fido2HmacCredentialsV, DecodeError>(
                    v@,
                ),
                Err(e) => hmac_credentials_decoded(j@) == Err::<Fido2HmacCredentialsV, DecodeError>(
                    e,
                ),
            },
    {
        let fields = match j {
            Json::Obj(fields) => fields,
            _ => {
                return Err(DecodeError::NotAnObject);
            },
        };
        let algorithm = match Json::obj_get(fields, "algorithm") {
            Some(Json::Str(s)) => Fido2HmacCredentialAlgorithm::from_wire(s.as_str()),
            Some(_) => {
                return Err(DecodeError::InvalidMember);
            },
            None => {
                return Err(DecodeError::MissingMember);
            },
        };
        let cred_with_uv = match Json::obj_get(fields, "credWithUV") {
            Some(Json::Str(s)) => match B64Url::decode(s.as_str()) {
                Ok(b) => b,
                Err(_) => {
                    return Err(DecodeError::InvalidMember);
                },
            },
            Some(_) => {
                return Err(DecodeError::InvalidMember);
            },
            None => {
                return Err(DecodeError::MissingMember);
            },
        };
        let cred_without_uv = match Json::obj_get(fields, "credWithoutUV") {
            Some(Json::Str(s)) => match B64Url::decode(s.as_str()) {
                Ok(b) => b,
                Err(_) => {
                    return Err(DecodeError::InvalidMember);
                },
            },
            Some(_) => {
                return Err(DecodeError::InvalidMember);
            },
            None => {
                return Err(DecodeError::MissingMember);
            },
        };
        Ok(Fido2HmacCredentials { algorithm, cred_with_uv, cred_without_uv })
    }

    /// Encodes the hmac-secret credential pair.
    pub fn encode(&self) -> (r: Json)
        ensures
            r@ == JsonV::Obj(hmac_credentials_entries(self@)),
    {
        let mut fields: Vec<(String, Json)> = Vec::new();
        fields.push(("algorithm".to_owned(), Json::Str(self.algorithm.wire_name())));
        fields.push(("credWithUV".to_owned(), Json::Str(self.cred_with_uv.to_string())));
        fields.push(("credWithoutUV".to_owned(), Json::Str(self.cred_without_uv.to_string())));
        proof {
            assert(fields_view(fields) =~= hmac_credentials_entries(self@));
        }
        Json::Obj(fields)
    }
}

/// The stored blob of the large blob storage extension.
#[derive(Debug, Clone, PartialEq, Eq)]
pub struct Fido2LargeBlob {
    /// The byte length of the blob once uncompressed.
    pub uncompressed_size: u64,
    /// The stored bytes, carried as base64url.
    pub data: B64Url,
}

/// The model of a large blob.
pub struct Fido2LargeBlobV {
    pub uncompressed_size: u64,
    pub data: Seq<u8>,
}

impl View for Fido2LargeBlob {
    type V = Fido2LargeBlobV;

    open spec fn view(&self) -> Fido2LargeBlobV {
        Fido2LargeBlobV { uncompressed_size: self.uncompressed_size, data: self.data@ }
    }
}

/// A size must fit the signed 64-bit wire integer.
pub open spec fn large_blob_wf(v: Fido2LargeBlobV) -> bool {
    v.uncompressed_size <= i64::MAX
}

/// The field list of an encoded large blob.
pub open spec fn large_blob_entries(v: Fido2LargeBlobV) -> Seq<(Seq<char>, JsonV)> {
    seq![
        ("uncompressedSize"@, JsonV::Int(v.uncompressed_size as int)),
        ("data"@, JsonV::Str(b64url_encoded(v.data))),
    ]
}

/// What decoding a large blob yields.
pub open spec fn large_blob_decoded(j: JsonV) -> Result<Fido2LargeBlobV, DecodeError> {
    match j {
        JsonV::Obj(o) => match lookup(o, "uncompressedSize"@) {
            Some(JsonV::Int(n)) => if 0 <= n <= i64::MAX {
                match lookup(o, "data"@) {
                    Some(JsonV::Str(s)) => match b64url_parse(s) {
                        Some(bytes) => Ok(
                            Fido2LargeBlobV { uncompressed_size: n as u64, data: bytes },
                        ),
                        None => Err(DecodeError::InvalidMember),
                    },
                    Some(_) => Err(DecodeError::InvalidMember),
                    None => Err(DecodeError::MissingMember),
                }
            } else {
                Err(DecodeError::InvalidMember)
            },
            Some(_) => Err(DecodeError::InvalidMember),
            None => Err(DecodeError::MissingMember),
        },
        _ => Err(DecodeError::NotAnObject),
    }
}

impl Fido2LargeBlob {
    /// Decodes a large blob from a JSON value.
    pub fn decode(j: &Json) -> (r: Result<Self, DecodeError>)
        ensures
            match r {
                Ok(v) => large_blob_decoded(j@) == Ok::<Fido2LargeBlobV, DecodeError>(v@)
                    && large_blob_wf(v@),
                Err(e) => large_blob_decoded(j@) == Err::<Fido2LargeBlobV, DecodeError>(e),
            },
    {
        let fields = match j {
            Json::Obj(fields) => fields,
            _ => {
                return Err(DecodeError::NotAnObject);
            },
        };
        let uncompressed_size = match Json::obj_get(fields, "uncompressedSize") {
            Some(Json::Int(n)) => if *n >= 0 {
                *n as u64
            } else {
                return Err(DecodeError::InvalidMember);
            },
            Some(_) => {
                return Err(DecodeError::InvalidMember);
            },
            None => {
                return Err(DecodeError::MissingMember);
            },
        };
        let data = match Json::obj_get(fields, "data") {
            Some(Json::Str(s)) => match B64Url::decode(s.as_str()) {
                Ok(b) => b,
                Err(_) => {
                    return Err(DecodeError::InvalidMember);
                },
            },
            Some(_) => {
                return Err(DecodeError::InvalidMember);
            },
            None => {
                return Err(DecodeError::MissingMember);
            },
        };
        Ok(Fido2LargeBlob { uncompressed_size, data })
    }

    /// Encodes the large blob. The size must fit the wire integer.
    pub fn encode(&self) -> (r: Json)
        requires
            large_blob_wf(self@),
        ensures
            r@ == JsonV::Obj(large_blob_entries(self@)),
    {
        let mut fields: Vec<(String, Json)> = Vec::new();
        fields.push(("uncompressedSize".to_owned(), Json::Int(self.uncompressed_size as i64)));
        fields.push(("data".to_owned(), Json::Str(self.data.to_string())));
        proof {
            assert(fields_view(fields) =~= large_blob_entries(self@));
        }
        Json::Obj(fields)
    }
}

/// An hmac-secret value stored under a user-defined alias.
#[derive(Debug, Clone, PartialEq, Eq)]
pub struct Fido2HmacSecret {
    /// The user-defined alias of the secret.
    pub alias: String,
    /// The secret bytes, carried as base64url.
    pub hmac_secret: B64Url,
}

/// The model of an aliased hmac secret.
pub struct Fido2HmacSecretV {
    pub alias: Seq<char>,
    pub hmac_secret: Seq<u8>,
}

impl View for Fido2HmacSecret {
    type V = Fido2HmacSecretV;

    open spec fn view(&self) -> Fido2HmacSecretV {
        Fido2HmacSecretV { alias: self.alias@, hmac_secret: self.hmac_secret@ }
    }
}

/// The field list of an encoded aliased hmac secret.
pub open spec fn hmac_secret_entries(v: Fido2HmacSecretV) -> Seq<(Seq<char>, JsonV)> {
    seq![
        ("alias"@, JsonV::Str(v.alias)),
        ("hmacSecret"@, JsonV::Str(b64url_encoded(v.hmac_secret))),
    ]
}

/// What decoding an aliased hmac secret yields.
pub open spec fn hmac_secret_decoded(j: JsonV) -> Result<Fido2HmacSecretV, DecodeError> {
    match j {
        JsonV::Obj(o) => match lookup(o, "alias"@) {
            Some(JsonV::Str(a)) => match lookup(o, "hmacSecret"@) {
                Some(JsonV::Str(s)) => match b64url_parse(s) {
                    Some(bytes) => Ok(Fido2HmacSecretV { alias: a, hmac_secret: bytes }),
                    None => Err(DecodeError::InvalidMember),
                },
                Some(_) => Err(DecodeError::InvalidMember),
                None => Err(DecodeError::MissingMember),
            },
            Some(_) => Err(DecodeError::InvalidMember),
            None => Err(DecodeError::MissingMember),
        },
        _ => Err(DecodeError::NotAnObject),
    }
}

impl Fido2HmacSecret {
    /// Decodes an aliased hmac secret from a JSON value.
    pub fn decode(j: &Json) -> (r: Result<Self, DecodeError>)
        ensures
            match r {
                Ok(v) => hmac_secret_decoded(j@) == Ok::<Fido2HmacSecretV, DecodeError>(v@),
                Err(e) => hmac_secret_decoded(j@) == Err::<Fido2HmacSecretV, DecodeError>(e),
            },
    {
        let fields = match j {
            Json::Obj(fields) => fields,
            _ => {
                return Err(DecodeError::NotAnObject);
            },
        };
        let alias = match Json::obj_get(fields, "alias") {
            Some(Json::Str(s)) => s.clone(),
            Some(_) => {
                return Err(DecodeError::InvalidMember);
            },
            None => {
                return Err(DecodeError::MissingMember);
            },
        };
        let hmac_secret = match Json::obj_get(fields, "hmacSecret") {
            Some(Json::Str(s)) => match B64Url::decode(s.as_str()) {
                Ok(b) => b,
                Err(_) => {
                    return Err(DecodeError::InvalidMember);
                },
            },
            Some(_) => {
                return Err(DecodeError::InvalidMember);
            },
            None => {
                return Err(DecodeError::MissingMember);
            },
        };
        Ok(Fido2HmacSecret { alias, hmac_secret })
    }

    /// Encodes the aliased hmac secret.
    pub fn encode(&self) -> (r: Json)
        ensures
            r@ == JsonV::Obj(hmac_secret_entries(self@)),
    {
        let mut fields: Vec<(String, Json)> = Vec::new();
        fields.push(("alias".to_owned(), Json::Str(self.alias.clone())));
        fields.push(("hmacSecret".to_owned(), Json::Str(self.hmac_secret.to_string())));
        proof {
            assert(fields_view(fields) =~= hmac_secret_entries(self@));
        }
        Json::Obj(fields)
    }
}

/// Whether supplemental device and provider keys are present.
#[derive(Debug, Clone, Copy, PartialEq, Eq, Structural)]
pub struct Fido2SupplementalKeys {
    /// Whether a device-bound key exists.
    pub device: Option<bool>,
    /// Whether a provider-bound key exists.
    pub provider: Option<bool>,
}

impl View for Fido2SupplementalKeys {
    type V = Fido2SupplementalKeys;

    open spec fn view(&self) -> Fido2SupplementalKeys {
        *self
    }
}

/// The field list of encoded supplemental key flags.
pub open spec fn supplemental_keys_entries(v: Fido2SupplementalKeys) -> Seq<(Seq<char>, JsonV)> {
    (match v.device {
        Some(d) => seq![("device"@, JsonV::Bool(d))],
        None => Seq::<(Seq<char>, JsonV)>::empty(),
    }) + (match v.provider {
        Some(p) => seq![("provider"@, JsonV::Bool(p))],
        None => Seq::<(Seq<char>, JsonV)>::empty(),
    })
}

/// What decoding supplemental key flags yields.
pub open spec fn supplemental_keys_decoded(j: JsonV) -> Result<Fido2SupplementalKeys, DecodeError> {
    match j {
        JsonV::Obj(o) => {
            let device = match lookup(o, "device"@) {
                Some(JsonV::Bool(d)) => Ok(Some(d)),
                Some(_) => Err(DecodeError::InvalidMember),
                None => Ok(None),
            };
            match device {
                Ok(device) => match lookup(o, "provider"@) {
                    Some(JsonV::Bool(p)) => Ok(
                        Fido2SupplementalKeys { device, provider: Some(p) },
                    ),
                    Some(_) => Err(DecodeError::InvalidMember),
                    None => Ok(Fido2SupplementalKeys { device, provider: None }),
                },
                Err(e) => Err(e),
            }
        },
        _ => Err(DecodeError::NotAnObject),
    }
}

impl Fido2SupplementalKeys {
    /// Decodes supplemental key flags from a JSON value.
    pub fn decode(j: &Json) -> (r: Result<Self, DecodeError>)
        ensures
            match r {
                Ok(v) => supplemental_keys_decoded(j@) == Ok::<Fido2SupplementalKeys, DecodeError>(
                    v,
                ),
                Err(e) => supplemental_keys_decoded(j@) == Err::<Fido2SupplementalKeys, DecodeError>(
                    e,
                ),
            },
    {
        let fields = match j {
            Json::Obj(fields) => fields,
            _ => {
                return Err(DecodeError::NotAnObject);
            },
        };
        let device = match Json::obj_get(fields, "device") {
            Some(Json::Bool(d)) => Some(*d),
            Some(_) => {
                return Err(DecodeError::InvalidMember);
            },
            None => None,
        };
        let provider = match Json::obj_get(fields, "provider") {
            Some(Json::Bool(p)) => Some(*p),
            Some(_) => {
                return Err(DecodeError::InvalidMember);
            },
            None => None,
        };
        Ok(Fido2SupplementalKeys { device, provider })
    }

    /// Encodes the supplemental key flags.
    pub fn encode(&self) -> (r: Json)
        ensures
            r@ == JsonV::Obj(supplemental_keys_entries(*self)),
    {
        let mut fields: Vec<(String, Json)> = Vec::new();
        match self.device {
            Some(d) => {
                fields.push(("device".to_owned(), Json::Bool(d)));
            },
            None => {},
        }
        match self.provider {
            Some(p) => {
                fields.push(("provider".to_owned(), Json::Bool(p)));
            },
            None => {},
        }
        proof {
            assert(fields_view(fields) =~= supplemental_keys_entries(*self));
        }
        Json::Obj(fields)
    }
}

/// The WebAuthn and CTAP2 extension data associated to a passkey.
#[derive(Debug, Clone, PartialEq, Eq)]
pub struct Fido2Extensions {
    /// The hmac-secret credential pair.
    pub hmac_credentials: Option<Fido2HmacCredentials>,
    /// An aliased hmac secret.
    pub hmac_secret: Option<Fido2HmacSecret>,
    /// The stored credential blob, carried as base64url.
    pub cred_blob: Option<B64Url>,
    /// The large blob storage extension data.
    pub large_blob: Option<Fido2LargeBlob>,
    /// Whether the credential is used for secure payment confirmation.
    pub payments: Option<bool>,
    /// Supplemental key flags.
    pub supplemental_keys: Option<Fido2SupplementalKeys>,
}

/// The model of a passkey's extension data.
pub struct Fido2ExtensionsV {
    pub hmac_credentials: Option<Fido2HmacCredentialsV>,
    pub hmac_secret: Option<Fido2HmacSecretV>,
    pub cred_blob: Option<Seq<u8>>,
    pub large_blob: Option<Fido2LargeBlobV>,
    pub payments: Option<bool>,
    pub supplemental_keys: Option<Fido2SupplementalKeys>,
}

impl View for Fido2Extensions {
    type V = Fido2ExtensionsV;

    open spec fn view(&self) -> Fido2ExtensionsV {
        Fido2ExtensionsV {
            hmac_credentials: match &self.hmac_credentials {
                Some(h) => Some(h@),
                None => None,
            },
            hmac_secret: match &self.hmac_secret {
                Some(h) => Some(h@),
                None => None,
            },
            cred_blob: match &self.cred_blob {
                Some(b) => Some(b@),
                None => None,
            },
            large_blob: match &self.large_blob {
                Some(l) => Some(l@),
                None => None,
            },
            payments: self.payments,
            supplemental_keys: match &self.supplemental_keys {
                Some(s) => Some(s@),
                None => None,
            },
        }
    }
}

/// A passkey's extension data can be carried when every size fits the wire.
pub open spec fn fido2_extensions_wf(v: Fido2ExtensionsV) -> bool {
    match v.large_blob {
        Some(l) => large_blob_wf(l),
        None => true,
    }
}

/// The field list of encoded passkey extension data.
pub open spec fn fido2_extensions_entries(v: Fido2ExtensionsV) -> Seq<(Seq<char>, JsonV)> {
    (match v.hmac_credentials {
        Some(h) => seq![("hmacCredentials"@, JsonV::Obj(hmac_credentials_entries(h)))],
        None => Seq::<(Seq<char>, JsonV)>::empty(),
    }) + (match v.hmac_secret {
        Some(h) => seq![("hmacSecret"@, JsonV::Obj(hmac_secret_entries(h)))],
        None => Seq::<(Seq<char>, JsonV)>::empty(),
    }) + (match v.cred_blob {
        Some(b) => seq![("credBlob"@, JsonV::Str(b64url_encoded(b)))],
        None => Seq::<(Seq<char>, JsonV)>::empty(),
    }) + (match v.large_blob {
        Some(l) => seq![("largeBlob"@, JsonV::Obj(large_blob_entries(l)))],
        None => Seq::<(Seq<char>, JsonV)>::empty(),
    }) + (match v.payments {
        Some(p) => seq![("payments"@, JsonV::Bool(p))],
        None => Seq::<(Seq<char>, JsonV)>::empty(),
    }) + (match v.supplemental_keys {
        Some(s) => seq![("supplementalKeys"@, JsonV::Obj(supplemental_keys_entries(s)))],
        None => Seq::<(Seq<char>, JsonV)>::empty(),
    })
}

/// What decoding passkey extension data yields.
pub open spec fn fido2_extensions_decoded(j: JsonV) -> Result<Fido2ExtensionsV, DecodeError> {
    match j {
        JsonV::Obj(o) => {
            let hc = match lookup(o, "hmacCredentials"@) {
                Some(hj) => match hmac_credentials_decoded(hj) {
                    Ok(h) => Ok(Some(h)),
                    Err(e) => Err(e),
                },
                None => Ok(None),
            };
            match hc {
                Ok(hmac_credentials) => {
                    let hs = match lookup(o, "hmacSecret"@) {
                        Some(hj) => match hmac_secret_decoded(hj) {
                            Ok(h) => Ok(Some(h)),
                            Err(e) => Err(e),
                        },
                        None => Ok(None),
                    };
                    match hs {
                        Ok(hmac_secret) => {
                            let cb = match lookup(o, "credBlob"@) {
                                Some(JsonV::Str(s)) => match b64url_parse(s) {
                                    Some(b) => Ok(Some(b)),
                                    None => Err(DecodeError::InvalidMember),
                                },
                                Some(_) => Err(DecodeError::InvalidMember),
                                None => Ok(None),
                            };
                            match cb {
                                Ok(cred_blob) => {
                                    let lb = match lookup(o, "largeBlob"@) {
                                        Some(lj) => match large_blob_decoded(lj) {
                                            Ok(l) => Ok(Some(l)),
                                            Err(e) => Err(e),
                                        },
                                        None => Ok(None),
                                    };
                                    match lb {
                                        Ok(large_blob) => {
                                            let pm = match lookup(o, "payments"@) {
                                                Some(JsonV::Bool(p)) => Ok(Some(p)),
                                                Some(_) => Err(DecodeError::InvalidMember),
                                                None => Ok(None),
                                            };
                                            match pm {
                                                Ok(payments) => {
                                                    let sk = match lookup(o, "supplementalKeys"@) {
                                                        Some(sj) => match supplemental_keys_decoded(
                                                            sj,
                                                        ) {
                                                            Ok(s) => Ok(Some(s)),
                                                            Err(e) => Err(e),
                                                        },
                                                        None => Ok(None),
                                                    };
                                                    match sk {
                                                        Ok(supplemental_keys) => Ok(
                                                            Fido2ExtensionsV {
                                                                hmac_credentials,
                                                                hmac_secret,
                                                                cred_blob,
                                                                large_blob,
                                                                payments,
                                                                supplemental_keys,
                                                            },
                                                        ),
                                                        Err(e) => Err(e),
                                                    }
                                                },
                                                Err(e) => Err(e),
                                            }
                                        },
                                        Err(e) => Err(e),
                                    }
                                },
                                Err(e) => Err(e),
                            }
                        },
                        Err(e) => Err(e),
                    }
                },
                Err(e) => Err(e),
            }
        },
        _ => Err(DecodeError::NotAnObject),
    }
}

impl Fido2Extensions {
    /// Decodes passkey extension data from a JSON value.
    pub fn decode(j: &Json) -> (r: Result<Self, DecodeError>)
        ensures
            match r {
                Ok(v) => fido2_extensions_decoded(j@) == Ok::<Fido2ExtensionsV, DecodeError>(v@)
                    && fido2_extensions_wf(v@),
                Err(e) => fido2_extensions_decoded(j@) == Err::<Fido2ExtensionsV, DecodeError>(e),
            },
    {
        let fields = match j {
            Json::Obj(fields) => fields,
            _ => {
                return Err(DecodeError::NotAnObject);
            },
        };
        let hmac_credentials = match Json::obj_get(fields, "hmacCredentials") {
            Some(hj) => match Fido2HmacCredentials::decode(hj) {
                Ok(h) => Some(h),
                Err(e) => {
                    return Err(e);
                },
            },
            None => None,
        };
        let hmac_secret = match Json::obj_get(fields, "hmacSecret") {
            Some(hj) => match Fido2HmacSecret::decode(hj) {
                Ok(h) => Some(h),
                Err(e) => {
                    return Err(e);
                },
            },
            None => None,
        };
        let cred_blob = match Json::obj_get(fields, "credBlob") {
            Some(Json::Str(s)) => match B64Url::decode(s.as_str()) {
                Ok(b) => Some(b),
                Err(_) => {
                    return Err(DecodeError::InvalidMember);
                },
            },
            Some(_) => {
                return Err(DecodeError::InvalidMember);
            },
            None => None,
        };
        let large_blob = match Json::obj_get(fields, "largeBlob") {
            Some(lj) => match Fido2LargeBlob::decode(lj) {
                Ok(l) => Some(l),
                Err(e) => {
                    return Err(e);
                },
            },
            None => None,
        };
        let payments = match Json::obj_get(fields, "payments") {
            Some(Json::Bool(p)) => Some(*p),
            Some(_) => {
                return Err(DecodeError::InvalidMember);
            },
            None => None,
        };
        let supplemental_keys = match Json::obj_get(fields, "supplementalKeys") {
            Some(sj) => match Fido2SupplementalKeys::decode(sj) {
                Ok(s) => Some(s),
                Err(e) => {
                    return Err(e);
                },
            },
            None => None,
        };
        Ok(
            Fido2Extensions {
                hmac_credentials,
                hmac_secret,
                cred_blob,
                large_blob,
                payments,
                supplemental_keys,
            },
        )
    }

    /// Encodes the passkey extension data.
    pub fn encode(&self) -> (r: Json)
        requires
            fido2_extensions_wf(self@),
        ensures
            r@ == JsonV::Obj(fido2_extensions_entries(self@)),
    {
        let mut fields: Vec<(String, Json)> = Vec::new();
        match &self.hmac_credentials {
            Some(h) => {
                fields.push(("hmacCredentials".to_owned(), h.encode()));
            },
            None => {},
        }
        match &self.hmac_secret {
            Some(h) => {
                fields.push(("hmacSecret".to_owned(), h.encode()));
            },
            None => {},
        }
        match &self.cred_blob {
            Some(b) => {
                fields.push(("credBlob".to_owned(), Json::Str(b.to_string())));
            },
            None => {},
        }
        match &self.large_blob {
            Some(l) => {
                fields.push(("largeBlob".to_owned(), l.encode()));
            },
            None => {},
        }
        match &self.payments {
            Some(p) => {
                fields.push(("payments".to_owned(), Json::Bool(*p)));
            },
            None => {},
        }
        match &self.supplemental_keys {
            Some(s) => {
                fields.push(("supplementalKeys".to_owned(), s.encode()));
            },
            None => {},
        }
        proof {
            assert(fields_view(fields) =~= fido2_extensions_entries(self@));
        }
        Json::Obj(fields)
    }
}

/// A passkey: a WebAuthn credential tied to a relying party and a user
/// account, together with its private key.
#[derive(Debug, Clone, PartialEq, Eq)]
pub struct PasskeyCredential {
    /// The WebAuthn credential identifier, equal to the raw identifier given
    /// during registration.
    pub credential_id: B64Url,
    /// The relying party identifier the passkey is tied to.
    pub rp_id: String,
    /// The human-palatable account identifier.
    pub username: String,
    /// The human-palatable account name intended only for display.
    pub user_display_name: String,
    /// The user handle identifying the account.
    pub user_handle: B64Url,
    /// The private key, a PKCS#8 byte string carried as base64url.
    pub key: B64Url,
    /// The FIDO2 extension data associated to this passkey.
    pub fido2_extensions: Option<Fido2Extensions>,
}

/// The model of a passkey.
pub struct PasskeyCredentialV {
    pub credential_id: Seq<u8>,
    pub rp_id: Seq<char>,
    pub username: Seq<char>,
    pub user_display_name: Seq<char>,
    pub user_handle: Seq<u8>,
    pub key: Seq<u8>,
    pub fido2_extensions: Option<Fido2ExtensionsV>,
}

impl View for PasskeyCredential {
    type V = PasskeyCredentialV;

    open spec fn view(&self) -> PasskeyCredentialV {
        PasskeyCredentialV {
            credential_id: self.credential_id@,
            rp_id: self.rp_id@,
            username: self.username@,
            user_display_name: self.user_display_name@,
            user_handle: self.user_handle@,
            key: self.key@,
            fido2_extensions: match &self.fido2_extensions {
                Some(f) => Some(f@),
                None => None,
            },
        }
    }
}

/// A passkey can be carried when its extension data fits the wire.
pub open spec fn passkey_wf(v: PasskeyCredentialV) -> bool {
    match v.fido2_extensions {
        Some(f) => fido2_extensions_wf(f),
        None => true,
    }
}

/// The field list of an encoded passkey, without the `type` tag.
pub open spec fn passkey_entries(v: PasskeyCredentialV) -> Seq<(Seq<char>, JsonV)> {
    seq![
        ("credentialId"@, JsonV::Str(b64url_encoded(v.credential_id))),
        ("rpId"@, JsonV::Str(v.rp_id)),
        ("username"@, JsonV::Str(v.username)),
        ("userDisplayName"@, JsonV::Str(v.user_display_name)),
        ("userHandle"@, JsonV::Str(b64url_encoded(v.user_handle))),
        ("key"@, JsonV::Str(b64url_encoded(v.key))),
    ] + (match v.fido2_extensions {
        Some(f) => seq![("fido2Extensions"@, JsonV::Obj(fido2_extensions_entries(f)))],
        None => Seq::<(Seq<char>, JsonV)>::empty(),
    })
}

/// What decoding a passkey from an object's field list yields.
pub open spec fn passkey_decoded(o: Seq<(Seq<char>, JsonV)>) -> Result<
    PasskeyCredentialV,
    DecodeError,
> {
    match lookup(o, "credentialId"@) {
        Some(JsonV::Str(ci)) => match b64url_parse(ci) {
            Some(credential_id) => match lookup(o, "rpId"@) {
                Some(JsonV::Str(rp_id)) => match lookup(o, "username"@) {
                    Some(JsonV::Str(username)) => match lookup(o, "userDisplayName"@) {
                        Some(JsonV::Str(display)) => match lookup(o, "userHandle"@) {
                            Some(JsonV::Str(uh)) => match b64url_parse(uh) {
                                Some(user_handle) => match lookup(o, "key"@) {
                                    Some(JsonV::Str(kk)) => match b64url_parse(kk) {
                                        Some(key) => match lookup(o, "fido2Extensions"@) {
                                            Some(fj) => match fido2_extensions_decoded(fj) {
                                                Ok(f) => Ok(
                                                    PasskeyCredentialV {
                                                        credential_id,
                                                        rp_id,
                                                        username,
                                                        user_display_name: display,
                                                        user_handle,
                                                        key,
                                                        fido2_extensions: Some(f),
                                                    },
                                                ),
                                                Err(e) => Err(e),
                                            },
                                            None => Ok(
                                                PasskeyCredentialV {
                                                    credential_id,
                                                    rp_id,
                                                    username,
                                                    user_display_name: display,
                                                    user_handle,
                                                    key,
                                                    fido2_extensions: None,
                                                },
                                            ),
                                        },
                                        None => Err(DecodeError::InvalidMember),
                                    },
                                    Some(_) => Err(DecodeError::InvalidMember),
                                    None => Err(DecodeError::MissingMember),
                                },
                                None => Err(DecodeError::InvalidMember),
                            },
                            Some(_) => Err(DecodeError::InvalidMember),
                            None => Err(DecodeError::MissingMember),
                        },
                        Some(_) => Err(DecodeError::InvalidMember),
                        None => Err(DecodeError::MissingMember),
                    },
                    Some(_) => Err(DecodeError::InvalidMember),
                    None => Err(DecodeError::MissingMember),
                },
                Some(_) => Err(DecodeError::InvalidMember),
                None => Err(DecodeError::MissingMember),
            },
            None => Err(DecodeError::InvalidMember),
        },
        Some(_) => Err(DecodeError::InvalidMember),
        None => Err(DecodeError::MissingMember),
    }
}

impl PasskeyCredential {
    /// Decodes a passkey from an object's field list.
    pub fn decode_fields(fields: &Vec<(String, Json)>) -> (r: Result<Self, DecodeError>)
        ensures
            match r {
                Ok(v) => passkey_decoded(fields_view(*fields)) == Ok::<
                    PasskeyCredentialV,
                    DecodeError,
                >(v@) && passkey_wf(v@),
                Err(e) => passkey_decoded(fields_view(*fields)) == Err::<
                    PasskeyCredentialV,
                    DecodeError,
                >(e),
            },
    {
        let credential_id = match Json::obj_get(fields, "credentialId") {
            Some(Json::Str(s)) => match B64Url::decode(s.as_str()) {
                Ok(b) => b,
                Err(_) => {
                    return Err(DecodeError::InvalidMember);
                },
            },
            Some(_) => {
                return Err(DecodeError::InvalidMember);
            },
            None => {
                return Err(DecodeError::MissingMember);
            },
        };
        let rp_id = match Json::obj_get(fields, "rpId") {
            Some(Json::Str(s)) => s.clone(),
            Some(_) => {
                return Err(DecodeError::InvalidMember);
            },
            None => {
                return Err(DecodeError::MissingMember);
            },
        };
        let username = match Json::obj_get(fields, "username") {
            Some(Json::Str(s)) => s.clone(),
            Some(_) => {
                return Err(DecodeError::InvalidMember);
            },
            None => {
                return Err(DecodeError::MissingMember);
            },
        };
        let user_display_name = match Json::obj_get(fields, "userDisplayName") {
            Some(Json::Str(s)) => s.clone(),
            Some(_) => {
                return Err(DecodeError::InvalidMember);
            },
            None => {
                return Err(DecodeError::MissingMember);
            },
        };
        let user_handle = match Json::obj_get(fields, "userHandle") {
            Some(Json::Str(s)) => match B64Url::decode(s.as_str()) {
                Ok(b) => b,
                Err(_) => {
                    return Err(DecodeError::InvalidMember);
                },
            },
            Some(_) => {
                return Err(DecodeError::InvalidMember);
            },
            None => {
                return Err(DecodeError::MissingMember);
            },
        };
        let key = match Json::obj_get(fields, "key") {
            Some(Json::Str(s)) => match B64Url::decode(s.as_str()) {
                Ok(b) => b,
                Err(_) => {
                    return Err(DecodeError::InvalidMember);
                },
            },
            Some(_) => {
                return Err(DecodeError::InvalidMember);
            },
            None => {
                return Err(DecodeError::MissingMember);
            },
        };
        let fido2_extensions = match Json::obj_get(fields, "fido2Extensions") {
            Some(fj) => match Fido2Extensions::decode(fj) {
                Ok(f) => Some(f),
                Err(e) => {
                    return Err(e);
                },
            },
            None => None,
        };
        Ok(
            PasskeyCredential {
                credential_id,
                rp_id,
                username,
                user_display_name,
                user_handle,
                key,
                fido2_extensions,
            },
        )
    }

    /// Appends the passkey's members to an object's field list.
    pub fn push_entries(&self, fields: &mut Vec<(String, Json)>)
        requires
            passkey_wf(self@),
        ensures
            fields_view(*final(fields)) == fields_view(*old(fields)) + passkey_entries(self@),
    {
        fields.push(("credentialId".to_owned(), Json::Str(self.credential_id.to_string())));
        fields.push(("rpId".to_owned(), Json::Str(self.rp_id.clone())));
        fields.push(("username".to_owned(), Json::Str(self.username.clone())));
        fields.push(("userDisplayName".to_owned(), Json::Str(self.user_display_name.clone())));
        fields.push(("userHandle".to_owned(), Json::Str(self.user_handle.to_string())));
        fields.push(("key".to_owned(), Json::Str(self.key.to_string())));
        match &self.fido2_extensions {
            Some(f) => {
                fields.push(("fido2Extensions".to_owned(), f.encode()));
            },
            None => {},
        }
        proof {
            assert(fields_view(*fields) =~= fields_view(*old(fields)) + passkey_entries(self@));
        }
    }
}

} // verus!
