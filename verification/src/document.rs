//! The document graph: linked items and credential scopes.
//!
//! These are the containing structures that the field and credential codecs
//! populate. A `LinkedItem` is a weak reference from a collection to an
//! item, never ownership; a `CredentialScope` bounds where an item's
//! credentials should be presented.

use vstd::prelude::*;
use crate::b64url::{b64url_encoded, b64url_parse, B64Url};
use crate::error::DecodeError;
use crate::extensions::{extension_decoded, extension_encoded, Extension, ExtensionV};
use crate::json::{
    arr_decoded, fields_view, items_view, lemma_arr_decoded_err, lemma_arr_decoded_ok,
    lemma_lookup_element, lookup, Json, JsonV,
};
use crate::credential::{credential_decoded, credential_decoder, credential_encoded, credential_wf, Credential, CredentialV};
use crate::text::str_eq;
use crate::timestamp::{timestamp_decoded, Timestamp};
use crate::Version;

verus! {

/// A reference to an item, possibly owned by another account.
#[derive(Debug, Clone, PartialEq, Eq)]
pub struct LinkedItem {
    /// The identifier of the referenced item. The item might not be part of
    /// the current exchange.
    pub item: B64Url,
    /// The identifier of the account owning the referenced item; absent when
    /// the item belongs to the account being exchanged.
    pub account: Option<B64Url>,
}

/// The model of a linked item.
pub struct LinkedItemV {
    pub item: Seq<u8>,
    pub account: Option<Seq<u8>>,
}

impl View for LinkedItem {
    type V = LinkedItemV;

    open spec fn view(&self) -> LinkedItemV {
        LinkedItemV {
            item: self.item@,
            account: match &self.account {
                Some(a) => Some(a@),
                None => None,
            },
        }
    }
}

impl DeepView for LinkedItem {
    type V = LinkedItemV;

    open spec fn deep_view(&self) -> LinkedItemV {
        self.view()
    }
}

/// The field list of an encoded linked item.
pub open spec fn linked_item_entries(v: LinkedItemV) -> Seq<(Seq<char>, JsonV)> {
    seq![("item"@, JsonV::Str(b64url_encoded(v.item)))] + (match v.account {
        Some(a) => seq![("account"@, JsonV::Str(b64url_encoded(a)))],
        None => Seq::<(Seq<char>, JsonV)>::empty(),
    })
}

/// What decoding a linked item yields.
pub open spec fn linked_item_decoded(j: JsonV) -> Result<LinkedItemV, DecodeError> {
    match j {
        JsonV::Obj(o) => match lookup(o, "item"@) {
            Some(JsonV::Str(s)) => match b64url_parse(s) {
                Some(bytes) => match lookup(o, "account"@) {
                    Some(JsonV::Str(a)) => match b64url_parse(a) {
                        Some(ab) => Ok(LinkedItemV { item: bytes, account: Some(ab) }),
                        None => Err(DecodeError::InvalidMember),
                    },
                    Some(_) => Err(DecodeError::InvalidMember),
                    None => Ok(LinkedItemV { item: bytes, account: None }),
                },
                None => Err(DecodeError::InvalidMember),
            },
            Some(_) => Err(DecodeError::InvalidMember),
            None => Err(DecodeError::MissingMember),
        },
        _ => Err(DecodeError::NotAnObject),
    }
}

impl LinkedItem {
    /// Decodes a linked item from a JSON value.
    pub fn decode(j: &Json) -> (r: Result<Self, DecodeError>)
        ensures
            match r {
                Ok(v) => linked_item_decoded(j@) == Ok::<LinkedItemV, DecodeError>(v@),
                Err(e) => linked_item_decoded(j@) == Err::<LinkedItemV, DecodeError>(e),
            },
    {
        let fields = match j {
            Json::Obj(fields) => fields,
            _ => {
                return Err(DecodeError::NotAnObject);
            },
        };
        let item = match Json::obj_get(fields, "item") {
            Some(Json::Str(s)) => match B64Url::decode(s.as_str()) {
                Ok(b) => b,
                Err(_) => {
                    return Err(DecodeError::InvalidMember);
                },
            },
            Some(_) => {
                return Err(DecodeError::InvalidMember);
            },
            None => {
                return Err(DecodeError::MissingMember);
            },
        };
        let account = match Json::obj_get(fields, "account") {
            Some(Json::Str(s)) => match B64Url::decode(s.as_str()) {
                Ok(b) => Some(b),
                Err(_) => {
                    return Err(DecodeError::InvalidMember);
                },
            },
            Some(_) => {
                return Err(DecodeError::InvalidMember);
            },
            None => None,
        };
        Ok(LinkedItem { item, account })
    }

    /// Encodes the linked item.
    pub fn encode(&self) -> (r: Json)
        ensures
            r@ == JsonV::Obj(linked_item_entries(self@)),
    {
        let mut fields: Vec<(String, Json)> = Vec::new();
        fields.push(("item".to_owned(), Json::Str(self.item.to_string())));
        match &self.account {
            Some(a) => {
                fields.push(("account".to_owned(), Json::Str(a.to_string())));
            },
            None => {},
        }
        proof {
            assert(fields_view(fields) =~= linked_item_entries(self@));
        }
        Json::Obj(fields)
    }
}

/// The algorithm used to hash an application certificate.
#[derive(Debug, Clone, PartialEq, Eq)]
pub enum AndroidAppHashAlgorithm {
    Sha256,
    Sha1,
    /// An algorithm this implementation does not know, kept verbatim.
    Other(String),
}

/// The model of a certificate hash algorithm.
pub enum AndroidAppHashAlgorithmV {
    Sha256,
    Sha1,
    Other(Seq<char>),
}

impl View for AndroidAppHashAlgorithm {
    type V = AndroidAppHashAlgorithmV;

    open spec fn view(&self) -> AndroidAppHashAlgorithmV {
        match self {
            AndroidAppHashAlgorithm::Sha256 => AndroidAppHashAlgorithmV::Sha256,
            AndroidAppHashAlgorithm::Sha1 => AndroidAppHashAlgorithmV::Sha1,
            AndroidAppHashAlgorithm::Other(s) => AndroidAppHashAlgorithmV::Other(s@),
        }
    }
}

/// The hash algorithm a wire name denotes; an unknown name is kept.
pub open spec fn hash_alg_parsed(s: Seq<char>) -> AndroidAppHashAlgorithmV {
    if s == "sha256"@ {
        AndroidAppHashAlgorithmV::Sha256
    } else if s == "sha1"@ {
        AndroidAppHashAlgorithmV::Sha1
    } else {
        AndroidAppHashAlgorithmV::Other(s)
    }
}

/// The wire name of a hash algorithm.
pub open spec fn hash_alg_name(v: AndroidAppHashAlgorithmV) -> Seq<char> {
    match v {
        AndroidAppHashAlgorithmV::Sha256 => "sha256"@,
        AndroidAppHashAlgorithmV::Sha1 => "sha1"@,
        AndroidAppHashAlgorithmV::Other(s) => s,
    }
}

impl AndroidAppHashAlgorithm {
    /// The algorithm a wire name denotes.
    pub fn from_wire(s: &str) -> (r: Self)
        ensures
            r@ == hash_alg_parsed(s@),
    {
        if str_eq(s, "sha256") {
            AndroidAppHashAlgorithm::Sha256
        } else if str_eq(s, "sha1") {
            AndroidAppHashAlgorithm::Sha1
        } else {
            AndroidAppHashAlgorithm::Other(s.to_owned())
        }
    }

    /// The algorithm's wire name.
    pub fn wire_name(&self) -> (r: String)
        ensures
            r@ == hash_alg_name(self@),
    {
        match self {
            AndroidAppHashAlgorithm::Sha256 => "sha256".to_owned(),
            AndroidAppHashAlgorithm::Sha1 => "sha1".to_owned(),
            AndroidAppHashAlgorithm::Other(s) => s.clone(),
        }
    }
}

/// The fingerprint of the certificate an Android application is signed
/// with.
#[derive(Debug, Clone, PartialEq, Eq)]
pub struct AndroidAppCertificateFingerprint {
    /// The hash of the application's public certificate, carried as
    /// base64url bytes.
    pub fingerprint: B64Url,
    /// The algorithm used to hash the certificate.
    pub hash_algorithm: AndroidAppHashAlgorithm,
}

/// The model of a certificate fingerprint.
pub struct AndroidAppCertificateFingerprintV {
    pub fingerprint: Seq<u8>,
    pub hash_algorithm: AndroidAppHashAlgorithmV,
}

impl View for AndroidAppCertificateFingerprint {
    type V = AndroidAppCertificateFingerprintV;

    open spec fn view(&self) -> AndroidAppCertificateFingerprintV {
        AndroidAppCertificateFingerprintV {
            fingerprint: self.fingerprint@,
            hash_algorithm: self.hash_algorithm@,
        }
    }
}

/// The field list of an encoded certificate fingerprint.
pub open spec fn fingerprint_entries(v: AndroidAppCertificateFingerprintV) -> Seq<
    (Seq<char>, JsonV),
> {
    seq![
        ("fingerprint"@, JsonV::Str(b64url_encoded(v.fingerprint))),
        ("hashAlgorithm"@, JsonV::Str(hash_alg_name(v.hash_algorithm))),
    ]
}

/// What decoding a certificate fingerprint yields.
pub open spec fn fingerprint_decoded(j: JsonV) -> Result<
    AndroidAppCertificateFingerprintV,
    DecodeError,
> {
    match j {
        JsonV::Obj(o) => match lookup(o, "fingerprint"@) {
            Some(JsonV::Str(s)) => match b64url_parse(s) {
                Some(bytes) => match lookup(o, "hashAlgorithm"@) {
                    Some(JsonV::Str(a)) => Ok(
                        AndroidAppCertificateFingerprintV {
                            fingerprint: bytes,
                            hash_algorithm: hash_alg_parsed(a),
                        },
                    ),
                    Some(_) => Err(DecodeError::InvalidMember),
                    None => Err(DecodeError::MissingMember),
                },
                None => Err(DecodeError::InvalidMember),
            },
            Some(_) => Err(DecodeError::InvalidMember),
            None => Err(DecodeError::MissingMember),
        },
        _ => Err(DecodeError::NotAnObject),
    }
}

impl AndroidAppCertificateFingerprint {
    /// Decodes a certificate fingerprint from a JSON value.
    pub fn decode(j: &Json) -> (r: Result<Self, DecodeError>)
        ensures
            match r {
                Ok(v) => fingerprint_decoded(j@) == Ok::<
                    AndroidAppCertificateFingerprintV,
                    DecodeError,
                >(v@),
                Err(e) => fingerprint_decoded(j@) == Err::<
                    AndroidAppCertificateFingerprintV,
                    DecodeError,
                >(e),
            },
    {
        let fields = match j {
            Json::Obj(fields) => fields,
            _ => {
                return Err(DecodeError::NotAnObject);
            },
        };
        let fingerprint = match Json::obj_get(fields, "fingerprint") {
            Some(Json::Str(s)) => match B64Url::decode(s.as_str()) {
                Ok(b) => b,
                Err(_) => {
                    return Err(DecodeError::InvalidMember);
                },
            },
            Some(_) => {
                return Err(DecodeError::InvalidMember);
            },
            None => {
                return Err(DecodeError::MissingMember);
            },
        };
        let hash_algorithm = match Json::obj_get(fields, "hashAlgorithm") {
            Some(Json::Str(s)) => AndroidAppHashAlgorithm::from_wire(s.as_str()),
            Some(_) => {
                return Err(DecodeError::InvalidMember);
            },
            None => {
                return Err(DecodeError::MissingMember);
            },
        };
        Ok(AndroidAppCertificateFingerprint { fingerprint, hash_algorithm })
    }

    /// Encodes the certificate fingerprint.
    pub fn encode(&self) -> (r: Json)
        ensures
            r@ == JsonV::Obj(fingerprint_entries(self@)),
    {
        let mut fields: Vec<(String, Json)> = Vec::new();
        fields.push(("fingerprint".to_owned(), Json::Str(self.fingerprint.to_string())));
        fields.push(("hashAlgorithm".to_owned(), Json::Str(self.hash_algorithm.wire_name())));
        proof {
            assert(fields_view(fields) =~= fingerprint_entries(self@));
        }
        Json::Obj(fields)
    }
}

/// The information identifying an Android application for which an item's
/// credentials are appropriate.
#[derive(Debug, Clone, PartialEq, Eq)]
pub struct AndroidAppIdCredential {
    /// The application identifier, such as `"com.example.myapp"`.
    pub bundle_id: String,
    /// The fingerprint of the certificate used to sign the application.
    pub certificate: Option<AndroidAppCertificateFingerprint>,
    /// The human-palatable name of the application.
    pub name: Option<String>,
}

/// The model of an Android application identity.
pub struct AndroidAppIdCredentialV {
    pub bundle_id: Seq<char>,
    pub certificate: Option<AndroidAppCertificateFingerprintV>,
    pub name: Option<Seq<char>>,
}

impl View for AndroidAppIdCredential {
    type V = AndroidAppIdCredentialV;

    open spec fn view(&self) -> AndroidAppIdCredentialV {
        AndroidAppIdCredentialV {
            bundle_id: self.bundle_id@,
            certificate: match &self.certificate {
                Some(c) => Some(c@),
                None => None,
            },
            name: match &self.name {
                Some(n) => Some(n@),
                None => None,
            },
        }
    }
}

impl DeepView for AndroidAppIdCredential {
    type V = AndroidAppIdCredentialV;

    open spec fn deep_view(&self) -> AndroidAppIdCredentialV {
        self.view()
    }
}

/// The field list of an encoded Android application identity.
pub open spec fn android_app_entries(v: AndroidAppIdCredentialV) -> Seq<(Seq<char>, JsonV)> {
    seq![("bundleId"@, JsonV::Str(v.bundle_id))] + (match v.certificate {
        Some(c) => seq![("certificate"@, JsonV::Obj(fingerprint_entries(c)))],
        None => Seq::<(Seq<char>, JsonV)>::empty(),
    }) + (match v.name {
        Some(n) => seq![("name"@, JsonV::Str(n))],
        None => Seq::<(Seq<char>, JsonV)>::empty(),
    })
}

/// What decoding an Android application identity yields.
pub open spec fn android_app_decoded(j: JsonV) -> Result<AndroidAppIdCredentialV, DecodeError> {
    match j {
        JsonV::Obj(o) => match lookup(o, "bundleId"@) {
            Some(JsonV::Str(bundle)) => {
                let cert = match lookup(o, "certificate"@) {
                    Some(cj) => match fingerprint_decoded(cj) {
                        Ok(c) => Ok(Some(c)),
                        Err(e) => Err(e),
                    },
                    None => Ok(None),
                };
                match cert {
                    Ok(certificate) => match lookup(o, "name"@) {
                        Some(JsonV::Str(n)) => Ok(
                            AndroidAppIdCredentialV {
                                bundle_id: bundle,
                                certificate,
                                name: Some(n),
                            },
                        ),
                        Some(_) => Err(DecodeError::InvalidMember),
                        None => Ok(
                            AndroidAppIdCredentialV { bundle_id: bundle, certificate, name: None },
                        ),
                    },
                    Err(e) => Err(e),
                }
            },
            Some(_) => Err(DecodeError::InvalidMember),
            None => Err(DecodeError::MissingMember),
        },
        _ => Err(DecodeError::NotAnObject),
    }
}

impl AndroidAppIdCredential {
    /// Decodes an Android application identity from a JSON value.
    pub fn decode(j: &Json) -> (r: Result<Self, DecodeError>)
        ensures
            match r {
                Ok(v) => android_app_decoded(j@) == Ok::<AndroidAppIdCredentialV, DecodeError>(v@),
                Err(e) => android_app_decoded(j@) == Err::<AndroidAppIdCredentialV, DecodeError>(
                    e,
                ),
            },
    {
        let fields = match j {
            Json::Obj(fields) => fields,
            _ => {
                return Err(DecodeError::NotAnObject);
            },
        };
        let bundle_id = match Json::obj_get(fields, "bundleId") {
            Some(Json::Str(s)) => s.clone(),
            Some(_) => {
                return Err(DecodeError::InvalidMember);
            },
            None => {
                return Err(DecodeError::MissingMember);
            },
        };
        let certificate = match Json::obj_get(fields, "certificate") {
            Some(cj) => match AndroidAppCertificateFingerprint::decode(cj) {
                Ok(c) => Some(c),
                Err(e) => {
                    return Err(e);
                },
            },
            None => None,
        };
        let name = match Json::obj_get(fields, "name") {
            Some(Json::Str(s)) => Some(s.clone()),
            Some(_) => {
                return Err(DecodeError::InvalidMember);
            },
            None => None,
        };
        Ok(AndroidAppIdCredential { bundle_id, certificate, name })
    }

    /// Encodes the Android application identity.
    pub fn encode(&self) -> (r: Json)
        ensures
            r@ == JsonV::Obj(android_app_entries(self@)),
    {
        let mut fields: Vec<(String, Json)> = Vec::new();
        fields.push(("bundleId".to_owned(), Json::Str(self.bundle_id.clone())));
        match &self.certificate {
            Some(c) => {
                fields.push(("certificate".to_owned(), c.encode()));
            },
            None => {},
        }
        match &self.name {
            Some(n) => {
                fields.push(("name".to_owned(), Json::Str(n.clone())));
            },
            None => {},
        }
        proof {
            assert(fields_view(fields) =~= android_app_entries(self@));
        }
        Json::Obj(fields)
    }
}

/// The context in which an item's credentials should be presented: the
/// matching web locations and the validated Android applications.
#[derive(Debug, Clone, PartialEq, Eq)]
pub struct CredentialScope {
    /// Strings following the URI syntax.
    pub urls: Vec<String>,
    /// The Android applications validated for these credentials.
    pub android_apps: Vec<AndroidAppIdCredential>,
}

/// The model of a credential scope.
pub struct CredentialScopeV {
    pub urls: Seq<Seq<char>>,
    pub android_apps: Seq<AndroidAppIdCredentialV>,
}

impl View for CredentialScope {
    type V = CredentialScopeV;

    open spec fn view(&self) -> CredentialScopeV {
        CredentialScopeV {
            urls: self.urls.deep_view(),
            android_apps: self.android_apps.deep_view(),
        }
    }
}

/// What decoding one URL entry yields: it must be a string.
pub open spec fn url_decoded(j: JsonV) -> Result<Seq<char>, DecodeError> {
    match j {
        JsonV::Str(s) => Ok(s),
        _ => Err(DecodeError::InvalidMember),
    }
}

/// The URL element decoder as a function value.
pub open spec fn url_decoder() -> spec_fn(JsonV) -> Result<Seq<char>, DecodeError> {
    |x: JsonV| url_decoded(x)
}

/// The Android application element decoder as a function value.
pub open spec fn android_app_decoder() -> spec_fn(JsonV) -> Result<
    AndroidAppIdCredentialV,
    DecodeError,
> {
    |x: JsonV| android_app_decoded(x)
}

/// The field list of an encoded credential scope.
pub open spec fn scope_entries(v: CredentialScopeV) -> Seq<(Seq<char>, JsonV)> {
    seq![
        ("urls"@, JsonV::Arr(v.urls.map_values(|u: Seq<char>| JsonV::Str(u)))),
        (
            "androidApps"@,
            JsonV::Arr(v.android_apps.map_values(|a: AndroidAppIdCredentialV| JsonV::Obj(android_app_entries(a)))),
        ),
    ]
}

/// What decoding a credential scope yields.
pub open spec fn scope_decoded(j: JsonV) -> Result<CredentialScopeV, DecodeError> {
    match j {
        JsonV::Obj(o) => match lookup(o, "urls"@) {
            Some(JsonV::Arr(ujs)) => match arr_decoded(url_decoder(), ujs) {
                Ok(urls) => match lookup(o, "androidApps"@) {
                    Some(JsonV::Arr(ajs)) => match arr_decoded(android_app_decoder(), ajs) {
                        Ok(apps) => Ok(CredentialScopeV { urls, android_apps: apps }),
                        Err(e) => Err(e),
                    },
                    Some(_) => Err(DecodeError::InvalidMember),
                    None => Err(DecodeError::MissingMember),
                },
                Err(e) => Err(e),
            },
            Some(_) => Err(DecodeError::InvalidMember),
            None => Err(DecodeError::MissingMember),
        },
        _ => Err(DecodeError::NotAnObject),
    }
}

impl CredentialScope {
    /// Decodes a credential scope from a JSON value.
    #[verifier::loop_isolation(false)]
    pub fn decode(j: &Json) -> (r: Result<Self, DecodeError>)
        ensures
            match r {
                Ok(v) => scope_decoded(j@) == Ok::<CredentialScopeV, DecodeError>(v@),
                Err(e) => scope_decoded(j@) == Err::<CredentialScopeV, DecodeError>(e),
            },
    {
        let fields = match j {
            Json::Obj(fields) => fields,
            _ => {
                return Err(DecodeError::NotAnObject);
            },
        };
        let urls_items = match Json::obj_get(fields, "urls") {
            Some(Json::Arr(items)) => items,
            Some(_) => {
                return Err(DecodeError::InvalidMember);
            },
            None => {
                return Err(DecodeError::MissingMember);
            },
        };
        let mut urls: Vec<String> = Vec::new();
        let mut i: usize = 0;
        let ghost ujs = items_view(*urls_items);
        while i < urls_items.len()
            invariant
                ujs == items_view(*urls_items),
                ujs.len() == urls_items@.len(),
                i <= urls_items@.len(),
                urls.deep_view().len() == i as int,
                forall|k: int|
                    0 <= k < i ==> url_decoded(#[trigger] ujs[k]) == Ok::<Seq<char>, DecodeError>(
                        urls.deep_view()[k],
                    ),
            decreases urls_items@.len() - i,
        {
            proof {
                assert(ujs[i as int] == urls_items@[i as int]@);
            }
            match &urls_items[i] {
                Json::Str(s) => {
                    urls.push(s.clone());
                    proof {
                        assert(urls.deep_view()[i as int] == s@);
                        assert(url_decoded(ujs[i as int]) == Ok::<Seq<char>, DecodeError>(s@));
                    }
                },
                _ => {
                    proof {
                        assert(url_decoded(ujs[i as int]) == Err::<Seq<char>, DecodeError>(
                            DecodeError::InvalidMember,
                        ));
                        lemma_arr_decoded_err(
                            url_decoder(),
                            ujs,
                            i as int,
                            DecodeError::InvalidMember,
                        );
                    }
                    return Err(DecodeError::InvalidMember);
                },
            }
            i += 1;
        }
        proof {
            lemma_arr_decoded_ok(url_decoder(), ujs, urls.deep_view());
        }
        let apps_items = match Json::obj_get(fields, "androidApps") {
            Some(Json::Arr(items)) => items,
            Some(_) => {
                return Err(DecodeError::InvalidMember);
            },
            None => {
                return Err(DecodeError::MissingMember);
            },
        };
        let mut apps: Vec<AndroidAppIdCredential> = Vec::new();
        let mut i: usize = 0;
        let ghost ajs = items_view(*apps_items);
        while i < apps_items.len()
            invariant
                ajs == items_view(*apps_items),
                ajs.len() == apps_items@.len(),
                i <= apps_items@.len(),
                apps.deep_view().len() == i as int,
                forall|k: int|
                    0 <= k < i ==> android_app_decoded(#[trigger] ajs[k]) == Ok::<
                        AndroidAppIdCredentialV,
                        DecodeError,
                    >(apps.deep_view()[k]),
            decreases apps_items@.len() - i,
        {
            proof {
                assert(ajs[i as int] == apps_items@[i as int]@);
            }
            match AndroidAppIdCredential::decode(&apps_items[i]) {
                Ok(a) => {
                    apps.push(a);
                    proof {
                        assert(apps.deep_view()[i as int] == a@);
                    }
                },
                Err(e) => {
                    proof {
                        lemma_arr_decoded_err(android_app_decoder(), ajs, i as int, e);
                    }
                    return Err(e);
                },
            }
            i += 1;
        }
        proof {
            lemma_arr_decoded_ok(android_app_decoder(), ajs, apps.deep_view());
        }
        Ok(CredentialScope { urls, android_apps: apps })
    }

    /// Encodes the credential scope.
    #[verifier::loop_isolation(false)]
    pub fn encode(&self) -> (r: Json)
        ensures
            r@ == JsonV::Obj(scope_entries(self@)),
    {
        let mut urls_items: Vec<Json> = Vec::new();
        let mut i: usize = 0;
        while i < self.urls.len()
            invariant
                i <= self.urls@.len(),
                urls_items@.len() == i,
                forall|k: int|
                    0 <= k < i ==> (#[trigger] urls_items@[k])@ == JsonV::Str(
                        self.urls.deep_view()[k],
                    ),
            decreases self.urls@.len() - i,
        {
            urls_items.push(Json::Str(self.urls[i].clone()));
            i += 1;
        }
        let mut apps_items: Vec<Json> = Vec::new();
        let mut i: usize = 0;
        while i < self.android_apps.len()
            invariant
                i <= self.android_apps@.len(),
                apps_items@.len() == i,
                forall|k: int|
                    0 <= k < i ==> (#[trigger] apps_items@[k])@ == JsonV::Obj(
                        android_app_entries(self.android_apps.deep_view()[k]),
                    ),
            decreases self.android_apps@.len() - i,
        {
            apps_items.push(self.android_apps[i].encode());
            i += 1;
        }
        let mut fields: Vec<(String, Json)> = Vec::new();
        fields.push(("urls".to_owned(), Json::Arr(urls_items)));
        fields.push(("androidApps".to_owned(), Json::Arr(apps_items)));
        proof {
            assert(items_view(fields@[0].1->Arr_0) =~= self@.urls.map_values(
                |u: Seq<char>| JsonV::Str(u),
            ));
            assert(items_view(fields@[1].1->Arr_0) =~= self@.android_apps.map_values(
                |a: AndroidAppIdCredentialV| JsonV::Obj(android_app_entries(a)),
            ));
            assert(fields_view(fields) =~= scope_entries(self@));
        }
        Json::Obj(fields)
    }
}

/// A coarse classification of items, kept for compatibility with early
/// shapes of the format.
#[derive(Debug, Clone, Copy, PartialEq, Eq, Structural)]
pub enum ItemType {
    /// A login credential.
    Login,
    /// A document.
    Document,
    /// An identity record.
    Identity,
}

/// A collection of items, possibly holding sub-collections.
#[derive(Debug, PartialEq, Eq)]
pub struct Collection {
    /// A machine-generated opaque identifier, at most 64 bytes.
    pub id: B64Url,
    /// When the collection was created.
    pub creation_at: Option<Timestamp>,
    /// When the collection was last modified.
    pub modified_at: Option<Timestamp>,
    /// The display name of the collection.
    pub title: String,
    /// A subtitle or description.
    pub subtitle: Option<String>,
    /// References to the items in this collection. A referenced item may be
    /// owned by a different account and need not be part of the exchange.
    pub items: Vec<LinkedItem>,
    /// Sub-collections, for providers with recursive organization.
    pub sub_collections: Option<Vec<Collection>>,
    /// Extensions to the collection's attributes.
    pub extensions: Option<Vec<Extension>>,
}

/// The model of a collection.
pub struct CollectionV {
    pub id: Seq<u8>,
    pub creation_at: Option<i64>,
    pub modified_at: Option<i64>,
    pub title: Seq<char>,
    pub subtitle: Option<Seq<char>>,
    pub items: Seq<LinkedItemV>,
    pub sub_collections: Option<Seq<CollectionV>>,
    pub extensions: Option<Seq<ExtensionV>>,
}

impl View for Collection {
    type V = CollectionV;

    open spec fn view(&self) -> CollectionV
        decreases self,
    {
        CollectionV {
            id: self.id@,
            creation_at: match self.creation_at {
                Some(t) => Some(t.secs),
                None => None,
            },
            modified_at: match self.modified_at {
                Some(t) => Some(t.secs),
                None => None,
            },
            title: self.title@,
            subtitle: match &self.subtitle {
                Some(s) => Some(s@),
                None => None,
            },
            items: self.items.deep_view(),
            sub_collections: match &self.sub_collections {
                Some(cs) => Some(collections_view(*cs)),
                None => None,
            },
            extensions: match &self.extensions {
                Some(es) => Some(es@.map_values(|e: Extension| e@)),
                None => None,
            },
        }
    }
}

/// The model of a list of collections.
pub open spec fn collections_view(cs: Vec<Collection>) -> Seq<CollectionV>
    decreases cs,
{
    Seq::new(
        cs@.len(),
        |i: int|
            if 0 <= i < cs@.len() {
                cs@[i]@
            } else {
                arbitrary()
            },
    )
}

/// What decoding one optional timestamp member yields.
pub open spec fn optional_timestamp_decoded(o: Seq<(Seq<char>, JsonV)>, k: Seq<char>) -> Result<
    Option<i64>,
    DecodeError,
> {
    match lookup(o, k) {
        Some(tj) => match timestamp_decoded(tj) {
            Ok(s) => Ok(Some(s)),
            Err(e) => Err(DecodeError::Timestamp(e)),
        },
        None => Ok(None),
    }
}

/// What decoding one optional string member yields.
pub open spec fn optional_string_decoded(o: Seq<(Seq<char>, JsonV)>, k: Seq<char>) -> Result<
    Option<Seq<char>>,
    DecodeError,
> {
    match lookup(o, k) {
        Some(JsonV::Str(s)) => Ok(Some(s)),
        Some(_) => Err(DecodeError::InvalidMember),
        None => Ok(None),
    }
}

/// What decoding the optional extension list yields. An extension element
/// itself never fails to decode.
pub open spec fn optional_extensions_decoded(o: Seq<(Seq<char>, JsonV)>) -> Result<
    Option<Seq<ExtensionV>>,
    DecodeError,
> {
    match lookup(o, "extensions"@) {
        Some(JsonV::Arr(ejs)) => Ok(Some(ejs.map_values(|x: JsonV| extension_decoded(x)))),
        Some(_) => Err(DecodeError::InvalidMember),
        None => Ok(None),
    }
}

/// The linked-item element decoder as a function value.
pub open spec fn linked_item_decoder() -> spec_fn(JsonV) -> Result<LinkedItemV, DecodeError> {
    |x: JsonV| linked_item_decoded(x)
}

/// What decoding a list of collections yields: each element in order, or
/// the first element error.
pub open spec fn collections_decoded(items: Seq<JsonV>) -> Result<Seq<CollectionV>, DecodeError>
    decreases items, 0int,
{
    if items.len() == 0 {
        Ok(Seq::empty())
    } else {
        proof {
            assert(decreases_to!(items => items[0]));
        }
        match collection_decoded(items[0]) {
            Ok(c) => match collections_decoded(items.drop_first()) {
                Ok(rest) => Ok(seq![c] + rest),
                Err(e) => Err(e),
            },
            Err(e) => Err(e),
        }
    }
}

/// What decoding a collection yields.
pub open spec fn collection_decoded(j: JsonV) -> Result<CollectionV, DecodeError>
    decreases j, 1int,
{
    match j {
        JsonV::Obj(o) => match lookup(o, "id"@) {
            Some(JsonV::Str(ids)) => match b64url_parse(ids) {
                Some(id) => match optional_timestamp_decoded(o, "creationAt"@) {
                    Ok(creation_at) => match optional_timestamp_decoded(o, "modifiedAt"@) {
                        Ok(modified_at) => match lookup(o, "title"@) {
                            Some(JsonV::Str(title)) => match optional_string_decoded(
                                o,
                                "subtitle"@,
                            ) {
                                Ok(subtitle) => match lookup(o, "items"@) {
                                    Some(JsonV::Arr(ljs)) => match arr_decoded(
                                        linked_item_decoder(),
                                        ljs,
                                    ) {
                                        Ok(items) => {
                                            let subs = match lookup(o, "subCollections"@) {
                                                Some(JsonV::Arr(cjs)) => {
                                                    proof {
                                                        lemma_lookup_element(
                                                            o,
                                                            "subCollections"@,
                                                        );
                                                        let i = choose|i: int|
                                                            0 <= i < o.len() && o[i].1
                                                                == JsonV::Arr(cjs);
                                                        assert(decreases_to!(j => j->Obj_0));
                                                        assert(decreases_to!(o => o[i]));
                                                        assert(decreases_to!(o[i] => o[i].1));
                                                        assert(decreases_to!(
                                                            o[i].1 => o[i].1->Arr_0));
                                                        assert(decreases_to!(j => cjs));
                                                    }
                                                    match collections_decoded(cjs) {
                                                        Ok(cs) => Ok(Some(cs)),
                                                        Err(e) => Err(e),
                                                    }
                                                },
                                                Some(_) => Err(DecodeError::InvalidMember),
                                                None => Ok(None),
                                            };
                                            match subs {
                                                Ok(sub_collections) => match optional_extensions_decoded(
                                                    o,
                                                ) {
                                                    Ok(extensions) => Ok(
                                                        CollectionV {
                                                            id,
                                                            creation_at,
                                                            modified_at,
                                                            title,
                                                            subtitle,
                                                            items,
                                                            sub_collections,
                                                            extensions,
                                                        },
                                                    ),
                                                    Err(e) => Err(e),
                                                },
                                                Err(e) => Err(e),
                                            }
                                        },
                                        Err(e) => Err(e),
                                    },
                                    Some(_) => Err(DecodeError::InvalidMember),
                                    None => Err(DecodeError::MissingMember),
                                },
                                Err(e) => Err(e),
                            },
                            Some(_) => Err(DecodeError::InvalidMember),
                            None => Err(DecodeError::MissingMember),
                        },
                        Err(e) => Err(e),
                    },
                    Err(e) => Err(e),
                },
                None => Err(DecodeError::InvalidMember),
            },
            Some(_) => Err(DecodeError::InvalidMember),
            None => Err(DecodeError::MissingMember),
        },
        _ => Err(DecodeError::NotAnObject),
    }
}

/// What encoding a list of collections produces.
pub open spec fn collections_encoded(cs: Seq<CollectionV>) -> Seq<JsonV>
    decreases cs, 0int,
{
    if cs.len() == 0 {
        Seq::empty()
    } else {
        proof {
            assert(decreases_to!(cs => cs[0]));
        }
        seq![JsonV::Obj(collection_entries(cs[0]))] + collections_encoded(cs.drop_first())
    }
}

/// The field list of an encoded collection.
pub open spec fn collection_entries(v: CollectionV) -> Seq<(Seq<char>, JsonV)>
    decreases v, 1int,
{
    seq![("id"@, JsonV::Str(b64url_encoded(v.id)))] + (match v.creation_at {
        Some(s) => seq![("creationAt"@, JsonV::Int(s as int))],
        None => Seq::<(Seq<char>, JsonV)>::empty(),
    }) + (match v.modified_at {
        Some(s) => seq![("modifiedAt"@, JsonV::Int(s as int))],
        None => Seq::<(Seq<char>, JsonV)>::empty(),
    }) + seq![
        ("title"@, JsonV::Str(v.title)),
    ] + (match v.subtitle {
        Some(s) => seq![("subtitle"@, JsonV::Str(s))],
        None => Seq::<(Seq<char>, JsonV)>::empty(),
    }) + seq![
        ("items"@, JsonV::Arr(v.items.map_values(|li: LinkedItemV| JsonV::Obj(linked_item_entries(li))))),
    ] + (match v.sub_collections {
        Some(cs) => {
            proof {
                assert(decreases_to!(v => v.sub_collections));
                assert(decreases_to!(v.sub_collections => v.sub_collections->0));
            }
            seq![("subCollections"@, JsonV::Arr(collections_encoded(cs)))]
        },
        None => Seq::<(Seq<char>, JsonV)>::empty(),
    }) + (match v.extensions {
        Some(es) => seq![
            ("extensions"@, JsonV::Arr(es.map_values(|e: ExtensionV| extension_encoded(e)))),
        ],
        None => Seq::<(Seq<char>, JsonV)>::empty(),
    })
}

impl DeepView for Collection {
    type V = CollectionV;

    open spec fn deep_view(&self) -> CollectionV {
        self.view()
    }
}

proof fn lemma_collections_decoded_ok(items: Seq<JsonV>, vals: Seq<CollectionV>)
    requires
        vals.len() == items.len(),
        forall|j: int| 0 <= j < items.len() ==> collection_decoded(#[trigger] items[j]) == Ok::<
            CollectionV,
            DecodeError,
        >(vals[j]),
    ensures
        collections_decoded(items) == Ok::<Seq<CollectionV>, DecodeError>(vals),
    decreases items.len(),
{
    if items.len() == 0 {
        assert(vals =~= Seq::<CollectionV>::empty());
    } else {
        lemma_collections_decoded_ok(items.drop_first(), vals.drop_first());
        assert(vals =~= seq![vals[0]] + vals.drop_first());
    }
}

proof fn lemma_collections_decoded_err(items: Seq<JsonV>, i: int, e: DecodeError)
    requires
        0 <= i < items.len(),
        forall|j: int| 0 <= j < i ==> collection_decoded(#[trigger] items[j]) is Ok,
        collection_decoded(items[i]) == Err::<CollectionV, DecodeError>(e),
    ensures
        collections_decoded(items) == Err::<Seq<CollectionV>, DecodeError>(e),
    decreases i,
{
    if i > 0 {
        lemma_collections_decoded_err(items.drop_first(), i - 1, e);
    }
}

proof fn lemma_collections_encoded_shape(cs: Seq<CollectionV>)
    ensures
        collections_encoded(cs).len() == cs.len(),
        forall|i: int| 0 <= i < cs.len() ==> #[trigger] collections_encoded(cs)[i] == JsonV::Obj(
            collection_entries(cs[i]),
        ),
    decreases cs.len(),
{
    if cs.len() > 0 {
        lemma_collections_encoded_shape(cs.drop_first());
        assert(forall|i: int|
            1 <= i < cs.len() ==> collections_encoded(cs)[i] == collections_encoded(
                cs.drop_first(),
            )[i - 1]);
    }
}

impl Collection {
    /// Decodes a collection from a JSON value, sub-collections included.
    #[verifier::loop_isolation(false)]
    #[verifier::rlimit(60)]
    pub fn decode(j: &Json) -> (r: Result<Self, DecodeError>)
        ensures
            match r {
                Ok(v) => collection_decoded(j@) == Ok::<CollectionV, DecodeError>(v@),
                Err(e) => collection_decoded(j@) == Err::<CollectionV, DecodeError>(e),
            },
        decreases j,
    {
        let fields = match j {
            Json::Obj(fields) => fields,
            _ => {
                return Err(DecodeError::NotAnObject);
            },
        };
        let id = match Json::obj_get(fields, "id") {
            Some(Json::Str(s)) => match B64Url::decode(s.as_str()) {
                Ok(b) => b,
                Err(_) => {
                    return Err(DecodeError::InvalidMember);
                },
            },
            Some(_) => {
                return Err(DecodeError::InvalidMember);
            },
            None => {
                return Err(DecodeError::MissingMember);
            },
        };
        let creation_at = match Json::obj_get(fields, "creationAt") {
            Some(tj) => match Timestamp::decode(tj) {
                Ok(t) => Some(t),
                Err(e) => {
                    return Err(DecodeError::Timestamp(e));
                },
            },
            None => None,
        };
        let modified_at = match Json::obj_get(fields, "modifiedAt") {
            Some(tj) => match Timestamp::decode(tj) {
                Ok(t) => Some(t),
                Err(e) => {
                    return Err(DecodeError::Timestamp(e));
                },
            },
            None => None,
        };
        let title = match Json::obj_get(fields, "title") {
            Some(Json::Str(s)) => s.clone(),
            Some(_) => {
                return Err(DecodeError::InvalidMember);
            },
            None => {
                return Err(DecodeError::MissingMember);
            },
        };
        let subtitle = match Json::obj_get(fields, "subtitle") {
            Some(Json::Str(s)) => Some(s.clone()),
            Some(_) => {
                return Err(DecodeError::InvalidMember);
            },
            None => None,
        };
        let li_items = match Json::obj_get(fields, "items") {
            Some(Json::Arr(items)) => items,
            Some(_) => {
                return Err(DecodeError::InvalidMember);
            },
            None => {
                return Err(DecodeError::MissingMember);
            },
        };
        let mut items: Vec<LinkedItem> = Vec::new();
        let mut i: usize = 0;
        let ghost ljs = items_view(*li_items);
        while i < li_items.len()
            invariant
                ljs == items_view(*li_items),
                i <= li_items@.len(),
                items.deep_view().len() == i as int,
                forall|k: int|
                    0 <= k < i ==> linked_item_decoded(#[trigger] ljs[k]) == Ok::<
                        LinkedItemV,
                        DecodeError,
                    >(items.deep_view()[k]),
            decreases li_items@.len() - i,
        {
            proof {
                assert(ljs[i as int] == li_items@[i as int]@);
            }
            match LinkedItem::decode(&li_items[i]) {
                Ok(li) => {
                    items.push(li);
                    proof {
                        assert(items.deep_view()[i as int] == li@);
                    }
                },
                Err(e) => {
                    proof {
                        lemma_arr_decoded_err(linked_item_decoder(), ljs, i as int, e);
                    }
                    return Err(e);
                },
            }
            i += 1;
        }
        proof {
            lemma_arr_decoded_ok(linked_item_decoder(), ljs, items.deep_view());
        }
        let sub_collections: Option<Vec<Collection>> = match Json::obj_get(
            fields,
            "subCollections",
        ) {
            Some(subj) => {
                let sub_items = match subj {
                    Json::Arr(sub_items) => sub_items,
                    _ => {
                        return Err(DecodeError::InvalidMember);
                    },
                };
                let mut subs: Vec<Collection> = Vec::new();
                let mut m: usize = 0;
                let ghost sjs = items_view(*sub_items);
                while m < sub_items.len()
                    invariant
                        sjs == items_view(*sub_items),
                        m <= sub_items@.len(),
                        subs@.len() == m,
                        forall|k: int|
                            0 <= k < m ==> collection_decoded(#[trigger] sjs[k]) == Ok::<
                                CollectionV,
                                DecodeError,
                            >(subs@[k]@),
                    decreases sub_items@.len() - m,
                {
                    proof {
                        assert(sjs[m as int] == sub_items@[m as int]@);
                        let i = choose|i: int|
                            0 <= i < fields@.len() && fields@[i].1 == *subj;
                        assert(decreases_to!(j => j->Obj_0));
                        assert(j->Obj_0 == *fields);
                        assert(decreases_to!(*fields => fields@));
                        assert(decreases_to!(fields@ => fields@[i]));
                        assert(decreases_to!(fields@[i] => fields@[i].1));
                        assert(decreases_to!(*subj => subj->Arr_0));
                        assert(subj->Arr_0 == *sub_items);
                        assert(decreases_to!(*sub_items => sub_items@));
                        assert(decreases_to!(sub_items@ => sub_items@[m as int]));
                        assert(decreases_to!(j => sub_items@[m as int]));
                    }
                    match Collection::decode(&sub_items[m]) {
                        Ok(c) => {
                            subs.push(c);
                            proof {
                                assert(subs@[m as int]@ == c@);
                            }
                        },
                        Err(e) => {
                            proof {
                                lemma_collections_decoded_err(sjs, m as int, e);
                            }
                            return Err(e);
                        },
                    }
                    m += 1;
                }
                proof {
                    assert(collections_view(subs) =~= subs@.map_values(|c: Collection| c@));
                    lemma_collections_decoded_ok(sjs, collections_view(subs));
                }
                Some(subs)
            },
            None => None,
        };
        let extensions: Option<Vec<Extension>> = match Json::obj_get(fields, "extensions") {
            Some(Json::Arr(ext_items)) => {
                let mut exts: Vec<Extension> = Vec::new();
                let mut m: usize = 0;
                let ghost ejs = items_view(*ext_items);
                while m < ext_items.len()
                    invariant
                        ejs == items_view(*ext_items),
                        m <= ext_items@.len(),
                        exts@.len() == m,
                        forall|k: int|
                            0 <= k < m ==> (#[trigger] exts@[k])@ == extension_decoded(ejs[k]),
                    decreases ext_items@.len() - m,
                {
                    proof {
                        assert(ejs[m as int] == ext_items@[m as int]@);
                    }
                    let e = Extension::decode(ext_items[m].clone());
                    exts.push(e);
                    m += 1;
                }
                proof {
                    assert(exts@.map_values(|e: Extension| e@) =~= ejs.map_values(
                        |x: JsonV| extension_decoded(x),
                    ));
                }
                Some(exts)
            },
            Some(_) => {
                return Err(DecodeError::InvalidMember);
            },
            None => None,
        };
        Ok(
            Collection {
                id,
                creation_at,
                modified_at,
                title,
                subtitle,
                items,
                sub_collections,
                extensions,
            },
        )
    }

    /// Encodes the collection, sub-collections included.
    #[verifier::loop_isolation(false)]
    #[verifier::rlimit(60)]
    pub fn encode(&self) -> (r: Json)
        ensures
            r@ == JsonV::Obj(collection_entries(self@)),
        decreases self,
    {
        let mut fields: Vec<(String, Json)> = Vec::new();
        fields.push(("id".to_owned(), Json::Str(self.id.to_string())));
        match &self.creation_at {
            Some(t) => {
                fields.push(("creationAt".to_owned(), t.encode()));
            },
            None => {},
        }
        match &self.modified_at {
            Some(t) => {
                fields.push(("modifiedAt".to_owned(), t.encode()));
            },
            None => {},
        }
        fields.push(("title".to_owned(), Json::Str(self.title.clone())));
        match &self.subtitle {
            Some(s) => {
                fields.push(("subtitle".to_owned(), Json::Str(s.clone())));
            },
            None => {},
        }
        let mut li_items: Vec<Json> = Vec::new();
        let mut i: usize = 0;
        while i < self.items.len()
            invariant
                i <= self.items@.len(),
                li_items@.len() == i,
                forall|k: int|
                    0 <= k < i ==> (#[trigger] li_items@[k])@ == JsonV::Obj(
                        linked_item_entries(self.items.deep_view()[k]),
                    ),
            decreases self.items@.len() - i,
        {
            li_items.push(self.items[i].encode());
            i += 1;
        }
        let ghost lpos = fields_view(fields).len() as int;
        fields.push(("items".to_owned(), Json::Arr(li_items)));
        proof {
            assert(items_view(fields@[lpos].1->Arr_0) =~= self@.items.map_values(
                |li: LinkedItemV| JsonV::Obj(linked_item_entries(li)),
            ));
        }
        match &self.sub_collections {
            Some(subs) => {
                let mut sub_items: Vec<Json> = Vec::new();
                let mut m: usize = 0;
                while m < subs.len()
                    invariant
                        m <= subs@.len(),
                        sub_items@.len() == m,
                        forall|k: int|
                            0 <= k < m ==> (#[trigger] sub_items@[k])@ == JsonV::Obj(
                                collection_entries(subs@[k]@),
                            ),
                    decreases subs@.len() - m,
                {
                    proof {
                        assert(decreases_to!(self => self.sub_collections));
                        assert(decreases_to!(self.sub_collections => *subs));
                        assert(decreases_to!(*subs => subs@));
                        assert(decreases_to!(subs@ => subs@[m as int]));
                        assert(decreases_to!(self => subs@[m as int]));
                    }
                    sub_items.push(subs[m].encode());
                    m += 1;
                }
                let ghost spos = fields_view(fields).len() as int;
                fields.push(("subCollections".to_owned(), Json::Arr(sub_items)));
                proof {
                    lemma_collections_encoded_shape(collections_view(*subs));
                    assert(items_view(fields@[spos].1->Arr_0) =~= collections_encoded(
                        collections_view(*subs),
                    ));
                }
            },
            None => {},
        }
        match &self.extensions {
            Some(exts) => {
                let mut ext_items: Vec<Json> = Vec::new();
                let mut m: usize = 0;
                while m < exts.len()
                    invariant
                        m <= exts@.len(),
                        ext_items@.len() == m,
                        forall|k: int|
                            0 <= k < m ==> (#[trigger] ext_items@[k])@ == extension_encoded(
                                exts@[k]@,
                            ),
                    decreases exts@.len() - m,
                {
                    ext_items.push(exts[m].encode());
                    m += 1;
                }
                let ghost epos = fields_view(fields).len() as int;
                fields.push(("extensions".to_owned(), Json::Arr(ext_items)));
                proof {
                    assert(items_view(fields@[epos].1->Arr_0) =~= exts@.map_values(
                        |e: Extension| e@,
                    ).map_values(|e: ExtensionV| extension_encoded(e)));
                }
            },
            None => {},
        }
        proof {
            assert(fields_view(fields) =~= collection_entries(self@));
        }
        Json::Obj(fields)
    }
}

/// A single vault entry: a titled set of credentials with scope and tags.
#[derive(Debug, Clone, PartialEq, Eq)]
pub struct Item {
    /// A machine-generated opaque identifier, at most 64 bytes.
    pub id: B64Url,
    /// When the item was originally created. An importer that requires a
    /// creation time uses the time of import when this is absent.
    pub creation_at: Option<Timestamp>,
    /// When the item was last modified.
    pub modified_at: Option<Timestamp>,
    /// The user-defined name or title of the item.
    pub title: String,
    /// A subtitle or description.
    pub subtitle: Option<String>,
    /// Whether the user marked the item as a favorite.
    pub favorite: Option<bool>,
    /// Where the item's credentials should be presented.
    pub scope: Option<CredentialScope>,
    /// The credentials associated to this item.
    pub credentials: Vec<Credential>,
    /// User-defined organizational tags.
    pub tags: Option<Vec<String>>,
    /// Extensions to the item's attributes.
    pub extensions: Option<Vec<Extension>>,
}

/// The model of an item.
pub struct ItemV {
    pub id: Seq<u8>,
    pub creation_at: Option<i64>,
    pub modified_at: Option<i64>,
    pub title: Seq<char>,
    pub subtitle: Option<Seq<char>>,
    pub favorite: Option<bool>,
    pub scope: Option<CredentialScopeV>,
    pub credentials: Seq<CredentialV>,
    pub tags: Option<Seq<Seq<char>>>,
    pub extensions: Option<Seq<ExtensionV>>,
}

impl View for Item {
    type V = ItemV;

    open spec fn view(&self) -> ItemV {
        ItemV {
            id: self.id@,
            creation_at: match self.creation_at {
                Some(t) => Some(t.secs),
                None => None,
            },
            modified_at: match self.modified_at {
                Some(t) => Some(t.secs),
                None => None,
            },
            title: self.title@,
            subtitle: match &self.subtitle {
                Some(s) => Some(s@),
                None => None,
            },
            favorite: self.favorite,
            scope: match &self.scope {
                Some(s) => Some(s@),
                None => None,
            },
            credentials: self.credentials.deep_view(),
            tags: match &self.tags {
                Some(ts) => Some(ts.deep_view()),
                None => None,
            },
            extensions: match &self.extensions {
                Some(es) => Some(es@.map_values(|e: Extension| e@)),
                None => None,
            },
        }
    }
}

impl DeepView for Item {
    type V = ItemV;

    open spec fn deep_view(&self) -> ItemV {
        self.view()
    }
}

/// An item can be carried when each of its credentials can.
pub open spec fn item_wf(v: ItemV) -> bool {
    forall|i: int| 0 <= i < v.credentials.len() ==> credential_wf(#[trigger] v.credentials[i])
}

/// What decoding an item yields.
pub open spec fn item_decoded(j: JsonV) -> Result<ItemV, DecodeError> {
    match j {
        JsonV::Obj(o) => match lookup(o, "id"@) {
            Some(JsonV::Str(ids)) => match b64url_parse(ids) {
                Some(id) => match optional_timestamp_decoded(o, "creationAt"@) {
                    Ok(creation_at) => match optional_timestamp_decoded(o, "modifiedAt"@) {
                        Ok(modified_at) => match lookup(o, "title"@) {
                            Some(JsonV::Str(title)) => match optional_string_decoded(
                                o,
                                "subtitle"@,
                            ) {
                                Ok(subtitle) => {
                                    let favorite = match lookup(o, "favorite"@) {
                                        Some(JsonV::Bool(b)) => Ok(Some(b)),
                                        Some(_) => Err(DecodeError::InvalidMember),
                                        None => Ok(None),
                                    };
                                    match favorite {
                                        Ok(favorite) => {
                                            let scope = match lookup(o, "scope"@) {
                                                Some(sj) => match scope_decoded(sj) {
                                                    Ok(s) => Ok(Some(s)),
                                                    Err(e) => Err(e),
                                                },
                                                None => Ok(None),
                                            };
                                            match scope {
                                                Ok(scope) => match lookup(o, "credentials"@) {
                                                    Some(JsonV::Arr(cjs)) => match arr_decoded(
                                                        credential_decoder(),
                                                        cjs,
                                                    ) {
                                                        Ok(credentials) => {
                                                            let tags = match lookup(o, "tags"@) {
                                                                Some(JsonV::Arr(tjs)) => match arr_decoded(
                                                                    url_decoder(),
                                                                    tjs,
                                                                ) {
                                                                    Ok(ts) => Ok(Some(ts)),
                                                                    Err(e) => Err(e),
                                                                },
                                                                Some(_) => Err(
                                                                    DecodeError::InvalidMember,
                                                                ),
                                                                None => Ok(None),
                                                            };
                                                            match tags {
                                                                Ok(tags) => match optional_extensions_decoded(
                                                                    o,
                                                                ) {
                                                                    Ok(extensions) => Ok(
                                                                        ItemV {
                                                                            id,
                                                                            creation_at,
                                                                            modified_at,
                                                                            title,
                                                                            subtitle,
                                                                            favorite,
                                                                            scope,
                                                                            credentials,
                                                                            tags,
                                                                            extensions,
                                                                        },
                                                                    ),
                                                                    Err(e) => Err(e),
                                                                },
                                                                Err(e) => Err(e),
                                                            }
                                                        },
                                                        Err(e) => Err(e),
                                                    },
                                                    Some(_) => Err(DecodeError::InvalidMember),
                                                    None => Err(DecodeError::MissingMember),
                                                },
                                                Err(e) => Err(e),
                                            }
                                        },
                                        Err(e) => Err(e),
                                    }
                                },
                                Err(e) => Err(e),
                            },
                            Some(_) => Err(DecodeError::InvalidMember),
                            None => Err(DecodeError::MissingMember),
                        },
                        Err(e) => Err(e),
                    },
                    Err(e) => Err(e),
                },
                None => Err(DecodeError::InvalidMember),
            },
            Some(_) => Err(DecodeError::InvalidMember),
            None => Err(DecodeError::MissingMember),
        },
        _ => Err(DecodeError::NotAnObject),
    }
}

/// The item element decoder as a function value.
pub open spec fn item_decoder() -> spec_fn(JsonV) -> Result<ItemV, DecodeError> {
    |x: JsonV| item_decoded(x)
}

/// The field list of an encoded item.
pub open spec fn item_entries(v: ItemV) -> Seq<(Seq<char>, JsonV)> {
    seq![("id"@, JsonV::Str(b64url_encoded(v.id)))] + (match v.creation_at {
        Some(s) => seq![("creationAt"@, JsonV::Int(s as int))],
        None => Seq::<(Seq<char>, JsonV)>::empty(),
    }) + (match v.modified_at {
        Some(s) => seq![("modifiedAt"@, JsonV::Int(s as int))],
        None => Seq::<(Seq<char>, JsonV)>::empty(),
    }) + seq![
        ("title"@, JsonV::Str(v.title)),
    ] + (match v.subtitle {
        Some(s) => seq![("subtitle"@, JsonV::Str(s))],
        None => Seq::<(Seq<char>, JsonV)>::empty(),
    }) + (match v.favorite {
        Some(b) => seq![("favorite"@, JsonV::Bool(b))],
        None => Seq::<(Seq<char>, JsonV)>::empty(),
    }) + (match v.scope {
        Some(s) => seq![("scope"@, JsonV::Obj(scope_entries(s)))],
        None => Seq::<(Seq<char>, JsonV)>::empty(),
    }) + seq![
        (
            "credentials"@,
            JsonV::Arr(v.credentials.map_values(|c: CredentialV| credential_encoded(c))),
        ),
    ] + (match v.tags {
        Some(ts) => seq![("tags"@, JsonV::Arr(ts.map_values(|t: Seq<char>| JsonV::Str(t))))],
        None => Seq::<(Seq<char>, JsonV)>::empty(),
    }) + (match v.extensions {
        Some(es) => seq![
            ("extensions"@, JsonV::Arr(es.map_values(|e: ExtensionV| extension_encoded(e)))),
        ],
        None => Seq::<(Seq<char>, JsonV)>::empty(),
    })
}

impl Item {
    /// Decodes an item from a JSON value.
    #[verifier::loop_isolation(false)]
    #[verifier::rlimit(60)]
    pub fn decode(j: &Json) -> (r: Result<Self, DecodeError>)
        ensures
            match r {
                Ok(v) => item_decoded(j@) == Ok::<ItemV, DecodeError>(v@) && item_wf(v@),
                Err(e) => item_decoded(j@) == Err::<ItemV, DecodeError>(e),
            },
    {
        let fields = match j {
            Json::Obj(fields) => fields,
            _ => {
                return Err(DecodeError::NotAnObject);
            },
        };
        let id = match Json::obj_get(fields, "id") {
            Some(Json::Str(s)) => match B64Url::decode(s.as_str()) {
                Ok(b) => b,
                Err(_) => {
                    return Err(DecodeError::InvalidMember);
                },
            },
            Some(_) => {
                return Err(DecodeError::InvalidMember);
            },
            None => {
                return Err(DecodeError::MissingMember);
            },
        };
        let creation_at = match Json::obj_get(fields, "creationAt") {
            Some(tj) => match Timestamp::decode(tj) {
                Ok(t) => Some(t),
                Err(e) => {
                    return Err(DecodeError::Timestamp(e));
                },
            },
            None => None,
        };
        let modified_at = match Json::obj_get(fields, "modifiedAt") {
            Some(tj) => match Timestamp::decode(tj) {
                Ok(t) => Some(t),
                Err(e) => {
                    return Err(DecodeError::Timestamp(e));
                },
            },
            None => None,
        };
        let title = match Json::obj_get(fields, "title") {
            Some(Json::Str(s)) => s.clone(),
            Some(_) => {
                return Err(DecodeError::InvalidMember);
            },
            None => {
                return Err(DecodeError::MissingMember);
            },
        };
        let subtitle = match Json::obj_get(fields, "subtitle") {
            Some(Json::Str(s)) => Some(s.clone()),
            Some(_) => {
                return Err(DecodeError::InvalidMember);
            },
            None => None,
        };
        let favorite = match Json::obj_get(fields, "favorite") {
            Some(Json::Bool(b)) => Some(*b),
            Some(_) => {
                return Err(DecodeError::InvalidMember);
            },
            None => None,
        };
        let scope = match Json::obj_get(fields, "scope") {
            Some(sj) => match CredentialScope::decode(sj) {
                Ok(s) => Some(s),
                Err(e) => {
                    return Err(e);
                },
            },
            None => None,
        };
        let cred_items = match Json::obj_get(fields, "credentials") {
            Some(Json::Arr(items)) => items,
            Some(_) => {
                return Err(DecodeError::InvalidMember);
            },
            None => {
                return Err(DecodeError::MissingMember);
            },
        };
        let mut credentials: Vec<Credential> = Vec::new();
        let mut i: usize = 0;
        let ghost cjs = items_view(*cred_items);
        while i < cred_items.len()
            invariant
                cjs == items_view(*cred_items),
                i <= cred_items@.len(),
                credentials.deep_view().len() == i as int,
                forall|k: int|
                    0 <= k < i ==> credential_decoded(#[trigger] cjs[k]) == Ok::<
                        CredentialV,
                        DecodeError,
                    >(credentials.deep_view()[k]) && credential_wf(credentials.deep_view()[k]),
            decreases cred_items@.len() - i,
        {
            proof {
                assert(cjs[i as int] == cred_items@[i as int]@);
            }
            match Credential::decode(cred_items[i].clone()) {
                Ok(c) => {
                    credentials.push(c);
                    proof {
                        assert(credentials.deep_view()[i as int] == c@);
                        assert(credential_wf(credentials.deep_view()[i as int]));
                    }
                },
                Err(e) => {
                    proof {
                        lemma_arr_decoded_err(credential_decoder(), cjs, i as int, e);
                    }
                    return Err(e);
                },
            }
            i += 1;
        }
        proof {
            lemma_arr_decoded_ok(credential_decoder(), cjs, credentials.deep_view());
            assert forall|k: int|
                0 <= k < credentials.deep_view().len() implies credential_wf(
                #[trigger] credentials.deep_view()[k],
            ) by {
                assert(credential_decoded(cjs[k]) == Ok::<CredentialV, DecodeError>(
                    credentials.deep_view()[k],
                ) && credential_wf(credentials.deep_view()[k]));
            }
        }
        let tags: Option<Vec<String>> = match Json::obj_get(fields, "tags") {
            Some(Json::Arr(tag_items)) => {
                let mut ts: Vec<String> = Vec::new();
                let mut m: usize = 0;
                let ghost tjs = items_view(*tag_items);
                while m < tag_items.len()
                    invariant
                        tjs == items_view(*tag_items),
                        m <= tag_items@.len(),
                        ts.deep_view().len() == m as int,
                        forall|k: int|
                            0 <= k < m ==> url_decoded(#[trigger] tjs[k]) == Ok::<
                                Seq<char>,
                                DecodeError,
                            >(ts.deep_view()[k]),
                    decreases tag_items@.len() - m,
                {
                    proof {
                        assert(tjs[m as int] == tag_items@[m as int]@);
                    }
                    match &tag_items[m] {
                        Json::Str(s) => {
                            ts.push(s.clone());
                            proof {
                                assert(ts.deep_view()[m as int] == s@);
                            }
                        },
                        _ => {
                            proof {
                                lemma_arr_decoded_err(
                                    url_decoder(),
                                    tjs,
                                    m as int,
                                    DecodeError::InvalidMember,
                                );
                            }
                            return Err(DecodeError::InvalidMember);
                        },
                    }
                    m += 1;
                }
                proof {
                    lemma_arr_decoded_ok(url_decoder(), tjs, ts.deep_view());
                }
                Some(ts)
            },
            Some(_) => {
                return Err(DecodeError::InvalidMember);
            },
            None => None,
        };
        let extensions: Option<Vec<Extension>> = match Json::obj_get(fields, "extensions") {
            Some(Json::Arr(ext_items)) => {
                let mut exts: Vec<Extension> = Vec::new();
                let mut m: usize = 0;
                let ghost ejs = items_view(*ext_items);
                while m < ext_items.len()
                    invariant
                        ejs == items_view(*ext_items),
                        m <= ext_items@.len(),
                        exts@.len() == m,
                        forall|k: int|
                            0 <= k < m ==> (#[trigger] exts@[k])@ == extension_decoded(ejs[k]),
                    decreases ext_items@.len() - m,
                {
                    proof {
                        assert(ejs[m as int] == ext_items@[m as int]@);
                    }
                    let e = Extension::decode(ext_items[m].clone());
                    exts.push(e);
                    m += 1;
                }
                proof {
                    assert(exts@.map_values(|e: Extension| e@) =~= ejs.map_values(
                        |x: JsonV| extension_decoded(x),
                    ));
                }
                Some(exts)
            },
            Some(_) => {
                return Err(DecodeError::InvalidMember);
            },
            None => None,
        };
        Ok(
            Item {
                id,
                creation_at,
                modified_at,
                title,
                subtitle,
                favorite,
                scope,
                credentials,
                tags,
                extensions,
            },
        )
    }

    /// Encodes the item.
    #[verifier::loop_isolation(false)]
    #[verifier::rlimit(100)]
    pub fn encode(&self) -> (r: Json)
        requires
            item_wf(self@),
        ensures
            r@ == JsonV::Obj(item_entries(self@)),
    {
        let mut fields: Vec<(String, Json)> = Vec::new();
        fields.push(("id".to_owned(), Json::Str(self.id.to_string())));
        match &self.creation_at {
            Some(t) => {
                fields.push(("creationAt".to_owned(), t.encode()));
            },
            None => {},
        }
        match &self.modified_at {
            Some(t) => {
                fields.push(("modifiedAt".to_owned(), t.encode()));
            },
            None => {},
        }
        fields.push(("title".to_owned(), Json::Str(self.title.clone())));
        match &self.subtitle {
            Some(s) => {
                fields.push(("subtitle".to_owned(), Json::Str(s.clone())));
            },
            None => {},
        }
        match &self.favorite {
            Some(b) => {
                fields.push(("favorite".to_owned(), Json::Bool(*b)));
            },
            None => {},
        }
        match &self.scope {
            Some(s) => {
                fields.push(("scope".to_owned(), s.encode()));
            },
            None => {},
        }
        let mut cred_items: Vec<Json> = Vec::new();
        let mut i: usize = 0;
        while i < self.credentials.len()
            invariant
                i <= self.credentials@.len(),
                cred_items@.len() == i,
                forall|k: int|
                    0 <= k < i ==> (#[trigger] cred_items@[k])@ == credential_encoded(
                        self.credentials.deep_view()[k],
                    ),
            decreases self.credentials@.len() - i,
        {
            proof {
                assert(credential_wf(self.credentials.deep_view()[i as int]));
            }
            cred_items.push(self.credentials[i].encode());
            i += 1;
        }
        let ghost cpos = fields_view(fields).len() as int;
        fields.push(("credentials".to_owned(), Json::Arr(cred_items)));
        proof {
            assert(items_view(fields@[cpos].1->Arr_0) =~= self@.credentials.map_values(
                |c: CredentialV| credential_encoded(c),
            ));
        }
        match &self.tags {
            Some(ts) => {
                let mut tag_items: Vec<Json> = Vec::new();
                let mut m: usize = 0;
                while m < ts.len()
                    invariant
                        m <= ts@.len(),
                        tag_items@.len() == m,
                        forall|k: int|
                            0 <= k < m ==> (#[trigger] tag_items@[k])@ == JsonV::Str(
                                ts.deep_view()[k],
                            ),
                    decreases ts@.len() - m,
                {
                    tag_items.push(Json::Str(ts[m].clone()));
                    m += 1;
                }
                let ghost tpos = fields_view(fields).len() as int;
                fields.push(("tags".to_owned(), Json::Arr(tag_items)));
                proof {
                    assert(items_view(fields@[tpos].1->Arr_0) =~= ts.deep_view().map_values(
                        |t: Seq<char>| JsonV::Str(t),
                    ));
                }
            },
            None => {},
        }
        match &self.extensions {
            Some(exts) => {
                let mut ext_items: Vec<Json> = Vec::new();
                let mut m: usize = 0;
                while m < exts.len()
                    invariant
                        m <= exts@.len(),
                        ext_items@.len() == m,
                        forall|k: int|
                            0 <= k < m ==> (#[trigger] ext_items@[k])@ == extension_encoded(
                                exts@[k]@,
                            ),
                    decreases exts@.len() - m,
                {
                    ext_items.push(exts[m].encode());
                    m += 1;
                }
                let ghost epos = fields_view(fields).len() as int;
                fields.push(("extensions".to_owned(), Json::Arr(ext_items)));
                proof {
                    assert(items_view(fields@[epos].1->Arr_0) =~= exts@.map_values(
                        |e: Extension| e@,
                    ).map_values(|e: ExtensionV| extension_encoded(e)));
                }
            },
            None => {},
        }
        proof {
            assert(fields_view(fields) =~= item_entries(self@));
        }
        Json::Obj(fields)
    }
}

/// A user account with the collections and items it owns.
#[derive(Debug, PartialEq, Eq)]
pub struct Account {
    /// A machine-generated opaque identifier, at most 64 bytes.
    pub id: B64Url,
    /// The user's pseudonym for the account; empty when unset.
    pub username: String,
    /// The email the account was registered with at the previous provider.
    pub email: String,
    /// The user's full name.
    pub full_name: Option<String>,
    /// The collections this account owns. Collections shared with the user
    /// by another account are never in this list.
    pub collections: Vec<Collection>,
    /// The items this account owns. Items shared with the user by another
    /// account are never in this list.
    pub items: Vec<Item>,
    /// Extensions to the account's attributes.
    pub extensions: Option<Vec<Extension>>,
}

/// The model of an account.
pub struct AccountV {
    pub id: Seq<u8>,
    pub username: Seq<char>,
    pub email: Seq<char>,
    pub full_name: Option<Seq<char>>,
    pub collections: Seq<CollectionV>,
    pub items: Seq<ItemV>,
    pub extensions: Option<Seq<ExtensionV>>,
}

impl View for Account {
    type V = AccountV;

    open spec fn view(&self) -> AccountV {
        AccountV {
            id: self.id@,
            username: self.username@,
            email: self.email@,
            full_name: match &self.full_name {
                Some(s) => Some(s@),
                None => None,
            },
            collections: collections_view(self.collections),
            items: self.items.deep_view(),
            extensions: match &self.extensions {
                Some(es) => Some(es@.map_values(|e: Extension| e@)),
                None => None,
            },
        }
    }
}

impl DeepView for Account {
    type V = AccountV;

    open spec fn deep_view(&self) -> AccountV {
        self.view()
    }
}

/// An account can be carried when each of its items can.
pub open spec fn account_wf(v: AccountV) -> bool {
    forall|i: int| 0 <= i < v.items.len() ==> item_wf(#[trigger] v.items[i])
}

/// What decoding an account yields.
pub open spec fn account_decoded(j: JsonV) -> Result<AccountV, DecodeError> {
    match j {
        JsonV::Obj(o) => match lookup(o, "id"@) {
            Some(JsonV::Str(ids)) => match b64url_parse(ids) {
                Some(id) => match lookup(o, "username"@) {
                    Some(JsonV::Str(username)) => match lookup(o, "email"@) {
                        Some(JsonV::Str(email)) => match optional_string_decoded(o, "fullName"@) {
                            Ok(full_name) => match lookup(o, "collections"@) {
                                Some(JsonV::Arr(cjs)) => match collections_decoded(cjs) {
                                    Ok(collections) => match lookup(o, "items"@) {
                                        Some(JsonV::Arr(ijs)) => match arr_decoded(
                                            item_decoder(),
                                            ijs,
                                        ) {
                                            Ok(items) => match optional_extensions_decoded(o) {
                                                Ok(extensions) => Ok(
                                                    AccountV {
                                                        id,
                                                        username,
                                                        email,
                                                        full_name,
                                                        collections,
                                                        items,
                                                        extensions,
                                                    },
                                                ),
                                                Err(e) => Err(e),
                                            },
                                            Err(e) => Err(e),
                                        },
                                        Some(_) => Err(DecodeError::InvalidMember),
                                        None => Err(DecodeError::MissingMember),
                                    },
                                    Err(e) => Err(e),
                                },
                                Some(_) => Err(DecodeError::InvalidMember),
                                None => Err(DecodeError::MissingMember),
                            },
                            Err(e) => Err(e),
                        },
                        Some(_) => Err(DecodeError::InvalidMember),
                        None => Err(DecodeError::MissingMember),
                    },
                    Some(_) => Err(DecodeError::InvalidMember),
                    None => Err(DecodeError::MissingMember),
                },
                None => Err(DecodeError::InvalidMember),
            },
            Some(_) => Err(DecodeError::InvalidMember),
            None => Err(DecodeError::MissingMember),
        },
        _ => Err(DecodeError::NotAnObject),
    }
}

/// The account element decoder as a function value.
pub open spec fn account_decoder() -> spec_fn(JsonV) -> Result<AccountV, DecodeError> {
    |x: JsonV| account_decoded(x)
}

/// The field list of an encoded account.
pub open spec fn account_entries(v: AccountV) -> Seq<(Seq<char>, JsonV)> {
    seq![
        ("id"@, JsonV::Str(b64url_encoded(v.id))),
        ("username"@, JsonV::Str(v.username)),
        ("email"@, JsonV::Str(v.email)),
    ] + (match v.full_name {
        Some(s) => seq![("fullName"@, JsonV::Str(s))],
        None => Seq::<(Seq<char>, JsonV)>::empty(),
    }) + seq![
        ("collections"@, JsonV::Arr(collections_encoded(v.collections))),
        ("items"@, JsonV::Arr(v.items.map_values(|it: ItemV| JsonV::Obj(item_entries(it))))),
    ] + (match v.extensions {
        Some(es) => seq![
            ("extensions"@, JsonV::Arr(es.map_values(|e: ExtensionV| extension_encoded(e)))),
        ],
        None => Seq::<(Seq<char>, JsonV)>::empty(),
    })
}

impl Account {
    /// Decodes an account from a JSON value.
    #[verifier::loop_isolation(false)]
    #[verifier::rlimit(100)]
    pub fn decode(j: &Json) -> (r: Result<Self, DecodeError>)
        ensures
            match r {
                Ok(v) => account_decoded(j@) == Ok::<AccountV, DecodeError>(v@) && account_wf(v@),
                Err(e) => account_decoded(j@) == Err::<AccountV, DecodeError>(e),
            },
    {
        let fields = match j {
            Json::Obj(fields) => fields,
            _ => {
                return Err(DecodeError::NotAnObject);
            },
        };
        let id = match Json::obj_get(fields, "id") {
            Some(Json::Str(s)) => match B64Url::decode(s.as_str()) {
                Ok(b) => b,
                Err(_) => {
                    return Err(DecodeError::InvalidMember);
                },
            },
            Some(_) => {
                return Err(DecodeError::InvalidMember);
            },
            None => {
                return Err(DecodeError::MissingMember);
            },
        };
        let username = match Json::obj_get(fields, "username") {
            Some(Json::Str(s)) => s.clone(),
            Some(_) => {
                return Err(DecodeError::InvalidMember);
            },
            None => {
                return Err(DecodeError::MissingMember);
            },
        };
        let email = match Json::obj_get(fields, "email") {
            Some(Json::Str(s)) => s.clone(),
            Some(_) => {
                return Err(DecodeError::InvalidMember);
            },
            None => {
                return Err(DecodeError::MissingMember);
            },
        };
        let full_name = match Json::obj_get(fields, "fullName") {
            Some(Json::Str(s)) => Some(s.clone()),
            Some(_) => {
                return Err(DecodeError::InvalidMember);
            },
            None => None,
        };
        let col_items = match Json::obj_get(fields, "collections") {
            Some(Json::Arr(items)) => items,
            Some(_) => {
                return Err(DecodeError::InvalidMember);
            },
            None => {
                return Err(DecodeError::MissingMember);
            },
        };
        let mut collections: Vec<Collection> = Vec::new();
        let mut i: usize = 0;
        let ghost kjs = items_view(*col_items);
        while i < col_items.len()
            invariant
                kjs == items_view(*col_items),
                i <= col_items@.len(),
                collections@.len() == i,
                forall|k: int|
                    0 <= k < i ==> collection_decoded(#[trigger] kjs[k]) == Ok::<
                        CollectionV,
                        DecodeError,
                    >(collections@[k]@),
            decreases col_items@.len() - i,
        {
            proof {
                assert(kjs[i as int] == col_items@[i as int]@);
            }
            match Collection::decode(&col_items[i]) {
                Ok(c) => {
                    collections.push(c);
                    proof {
                        assert(collections@[i as int]@ == c@);
                    }
                },
                Err(e) => {
                    proof {
                        lemma_collections_decoded_err(kjs, i as int, e);
                    }
                    return Err(e);
                },
            }
            i += 1;
        }
        proof {
            assert(collections_view(collections) =~= collections@.map_values(
                |c: Collection| c@,
            ));
            lemma_collections_decoded_ok(kjs, collections_view(collections));
        }
        let item_items = match Json::obj_get(fields, "items") {
            Some(Json::Arr(items)) => items,
            Some(_) => {
                return Err(DecodeError::InvalidMember);
            },
            None => {
                return Err(DecodeError::MissingMember);
            },
        };
        let mut items: Vec<Item> = Vec::new();
        let mut i: usize = 0;
        let ghost ijs = items_view(*item_items);
        while i < item_items.len()
            invariant
                ijs == items_view(*item_items),
                i <= item_items@.len(),
                items.deep_view().len() == i as int,
                forall|k: int|
                    0 <= k < i ==> item_decoded(#[trigger] ijs[k]) == Ok::<ItemV, DecodeError>(
                        items.deep_view()[k],
                    ) && item_wf(items.deep_view()[k]),
            decreases item_items@.len() - i,
        {
            proof {
                assert(ijs[i as int] == item_items@[i as int]@);
            }
            match Item::decode(&item_items[i]) {
                Ok(it) => {
                    items.push(it);
                    proof {
                        assert(items.deep_view()[i as int] == it@);
                    }
                },
                Err(e) => {
                    proof {
                        lemma_arr_decoded_err(item_decoder(), ijs, i as int, e);
                    }
                    return Err(e);
                },
            }
            i += 1;
        }
        proof {
            lemma_arr_decoded_ok(item_decoder(), ijs, items.deep_view());
            assert forall|k: int| 0 <= k < items.deep_view().len() implies item_wf(
                #[trigger] items.deep_view()[k],
            ) by {
                assert(item_decoded(ijs[k]) == Ok::<ItemV, DecodeError>(items.deep_view()[k])
                    && item_wf(items.deep_view()[k]));
            }
        }
        let extensions: Option<Vec<Extension>> = match Json::obj_get(fields, "extensions") {
            Some(Json::Arr(ext_items)) => {
                let mut exts: Vec<Extension> = Vec::new();
                let mut m: usize = 0;
                let ghost ejs = items_view(*ext_items);
                while m < ext_items.len()
                    invariant
                        ejs == items_view(*ext_items),
                        m <= ext_items@.len(),
                        exts@.len() == m,
                        forall|k: int|
                            0 <= k < m ==> (#[trigger] exts@[k])@ == extension_decoded(ejs[k]),
                    decreases ext_items@.len() - m,
                {
                    proof {
                        assert(ejs[m as int] == ext_items@[m as int]@);
                    }
                    let e = Extension::decode(ext_items[m].clone());
                    exts.push(e);
                    m += 1;
                }
                proof {
                    assert(exts@.map_values(|e: Extension| e@) =~= ejs.map_values(
                        |x: JsonV| extension_decoded(x),
                    ));
                }
                Some(exts)
            },
            Some(_) => {
                return Err(DecodeError::InvalidMember);
            },
            None => None,
        };
        Ok(Account { id, username, email, full_name, collections, items, extensions })
    }

    /// Encodes the account.
    #[verifier::loop_isolation(false)]
    #[verifier::rlimit(100)]
    pub fn encode(&self) -> (r: Json)
        requires
            account_wf(self@),
        ensures
            r@ == JsonV::Obj(account_entries(self@)),
    {
        let mut fields: Vec<(String, Json)> = Vec::new();
        fields.push(("id".to_owned(), Json::Str(self.id.to_string())));
        fields.push(("username".to_owned(), Json::Str(self.username.clone())));
        fields.push(("email".to_owned(), Json::Str(self.email.clone())));
        match &self.full_name {
            Some(s) => {
                fields.push(("fullName".to_owned(), Json::Str(s.clone())));
            },
            None => {},
        }
        let mut col_items: Vec<Json> = Vec::new();
        let mut i: usize = 0;
        while i < self.collections.len()
            invariant
                i <= self.collections@.len(),
                col_items@.len() == i,
                forall|k: int|
                    0 <= k < i ==> (#[trigger] col_items@[k])@ == JsonV::Obj(
                        collection_entries(self.collections@[k]@),
                    ),
            decreases self.collections@.len() - i,
        {
            col_items.push(self.collections[i].encode());
            i += 1;
        }
        let ghost cpos = fields_view(fields).len() as int;
        fields.push(("collections".to_owned(), Json::Arr(col_items)));
        proof {
            lemma_collections_encoded_shape(collections_view(self.collections));
            assert(items_view(fields@[cpos].1->Arr_0) =~= collections_encoded(
                collections_view(self.collections),
            ));
        }
        let mut item_items: Vec<Json> = Vec::new();
        let mut i: usize = 0;
        while i < self.items.len()
            invariant
                i <= self.items@.len(),
                item_items@.len() == i,
                forall|k: int|
                    0 <= k < i ==> (#[trigger] item_items@[k])@ == JsonV::Obj(
                        item_entries(self.items.deep_view()[k]),
                    ),
            decreases self.items@.len() - i,
        {
            proof {
                assert(item_wf(self.items.deep_view()[i as int]));
            }
            item_items.push(self.items[i].encode());
            i += 1;
        }
        let ghost ipos = fields_view(fields).len() as int;
        fields.push(("items".to_owned(), Json::Arr(item_items)));
        proof {
            assert(items_view(fields@[ipos].1->Arr_0) =~= self@.items.map_values(
                |it: ItemV| JsonV::Obj(item_entries(it)),
            ));
        }
        match &self.extensions {
            Some(exts) => {
                let mut ext_items: Vec<Json> = Vec::new();
                let mut m: usize = 0;
                while m < exts.len()
                    invariant
                        m <= exts@.len(),
                        ext_items@.len() == m,
                        forall|k: int|
                            0 <= k < m ==> (#[trigger] ext_items@[k])@ == extension_encoded(
                                exts@[k]@,
                            ),
                    decreases exts@.len() - m,
                {
                    ext_items.push(exts[m].encode());
                    m += 1;
                }
                let ghost epos = fields_view(fields).len() as int;
                fields.push(("extensions".to_owned(), Json::Arr(ext_items)));
                proof {
                    assert(items_view(fields@[epos].1->Arr_0) =~= exts@.map_values(
                        |e: Extension| e@,
                    ).map_values(|e: ExtensionV| extension_encoded(e)));
                }
            },
            None => {},
        }
        proof {
            assert(fields_view(fields) =~= account_entries(self@));
        }
        Json::Obj(fields)
    }
}

/// What decoding a format version yields: an object with byte-sized major
/// and minor numbers.
pub open spec fn format_version_decoded(j: JsonV) -> Result<Version, DecodeError> {
    match j {
        JsonV::Obj(o) => match lookup(o, "major"@) {
            Some(JsonV::Int(maj)) => if 0 <= maj <= u8::MAX {
                match lookup(o, "minor"@) {
                    Some(JsonV::Int(min)) => if 0 <= min <= u8::MAX {
                        Ok(Version { major: maj as u8, minor: min as u8 })
                    } else {
                        Err(DecodeError::InvalidMember)
                    },
                    Some(_) => Err(DecodeError::InvalidMember),
                    None => Err(DecodeError::MissingMember),
                }
            } else {
                Err(DecodeError::InvalidMember)
            },
            Some(_) => Err(DecodeError::InvalidMember),
            None => Err(DecodeError::MissingMember),
        },
        _ => Err(DecodeError::NotAnObject),
    }
}

/// The field list of an encoded format version.
pub open spec fn format_version_entries(v: Version) -> Seq<(Seq<char>, JsonV)> {
    seq![("major"@, JsonV::Int(v.major as int)), ("minor"@, JsonV::Int(v.minor as int))]
}

/// The top of an exchange payload: the format version, the exporter's
/// identity, the export time and the exported accounts.
#[derive(Debug, PartialEq, Eq)]
pub struct Header {
    /// The version of the format this payload conforms to.
    pub version: Version,
    /// The exporting app, as a relying party identifier.
    pub exporter_rp_id: String,
    /// The exporting app's display name.
    pub exporter_display_name: String,
    /// When the export document was completed.
    pub timestamp: Timestamp,
    /// The exported accounts.
    pub accounts: Vec<Account>,
}

/// The model of a header.
pub struct HeaderV {
    pub version: Version,
    pub exporter_rp_id: Seq<char>,
    pub exporter_display_name: Seq<char>,
    pub timestamp: i64,
    pub accounts: Seq<AccountV>,
}

impl View for Header {
    type V = HeaderV;

    open spec fn view(&self) -> HeaderV {
        HeaderV {
            version: self.version,
            exporter_rp_id: self.exporter_rp_id@,
            exporter_display_name: self.exporter_display_name@,
            timestamp: self.timestamp.secs,
            accounts: self.accounts.deep_view(),
        }
    }
}

/// A header can be carried when each of its accounts can.
pub open spec fn header_wf(v: HeaderV) -> bool {
    forall|i: int| 0 <= i < v.accounts.len() ==> account_wf(#[trigger] v.accounts[i])
}

/// What decoding a whole exchange payload yields.
pub open spec fn header_decoded(j: JsonV) -> Result<HeaderV, DecodeError> {
    match j {
        JsonV::Obj(o) => match lookup(o, "version"@) {
            Some(vj) => match format_version_decoded(vj) {
                Ok(version) => match lookup(o, "exporterRpId"@) {
                    Some(JsonV::Str(rp)) => match lookup(o, "exporterDisplayName"@) {
                        Some(JsonV::Str(dn)) => match lookup(o, "timestamp"@) {
                            Some(tj) => match timestamp_decoded(tj) {
                                Ok(ts) => match lookup(o, "accounts"@) {
                                    Some(JsonV::Arr(ajs)) => match arr_decoded(
                                        account_decoder(),
                                        ajs,
                                    ) {
                                        Ok(accounts) => Ok(
                                            HeaderV {
                                                version,
                                                exporter_rp_id: rp,
                                                exporter_display_name: dn,
                                                timestamp: ts,
                                                accounts,
                                            },
                                        ),
                                        Err(e) => Err(e),
                                    },
                                    Some(_) => Err(DecodeError::InvalidMember),
                                    None => Err(DecodeError::MissingMember),
                                },
                                Err(e) => Err(DecodeError::Timestamp(e)),
                            },
                            None => Err(DecodeError::MissingMember),
                        },
                        Some(_) => Err(DecodeError::InvalidMember),
                        None => Err(DecodeError::MissingMember),
                    },
                    Some(_) => Err(DecodeError::InvalidMember),
                    None => Err(DecodeError::MissingMember),
                },
                Err(e) => Err(e),
            },
            None => Err(DecodeError::MissingMember),
        },
        _ => Err(DecodeError::NotAnObject),
    }
}

/// The field list of an encoded exchange payload.
pub open spec fn header_entries(v: HeaderV) -> Seq<(Seq<char>, JsonV)> {
    seq![
        ("version"@, JsonV::Obj(format_version_entries(v.version))),
        ("exporterRpId"@, JsonV::Str(v.exporter_rp_id)),
        ("exporterDisplayName"@, JsonV::Str(v.exporter_display_name)),
        ("timestamp"@, JsonV::Int(v.timestamp as int)),
        ("accounts"@, JsonV::Arr(v.accounts.map_values(|a: AccountV| JsonV::Obj(account_entries(a))))),
    ]
}

impl Header {
    /// Decodes a whole exchange payload from a JSON value.
    #[verifier::loop_isolation(false)]
    #[verifier::rlimit(100)]
    pub fn decode(j: &Json) -> (r: Result<Self, DecodeError>)
        ensures
            match r {
                Ok(v) => header_decoded(j@) == Ok::<HeaderV, DecodeError>(v@) && header_wf(v@),
                Err(e) => header_decoded(j@) == Err::<HeaderV, DecodeError>(e),
            },
    {
        let fields = match j {
            Json::Obj(fields) => fields,
            _ => {
                return Err(DecodeError::NotAnObject);
            },
        };
        let version = match Json::obj_get(fields, "version") {
            Some(vj) => {
                let vfields = match vj {
                    Json::Obj(vfields) => vfields,
                    _ => {
                        return Err(DecodeError::NotAnObject);
                    },
                };
                let major = match Json::obj_get(vfields, "major") {
                    Some(Json::Int(n)) => if *n >= 0 && *n <= 255 {
                        *n as u8
                    } else {
                        return Err(DecodeError::InvalidMember);
                    },
                    Some(_) => {
                        return Err(DecodeError::InvalidMember);
                    },
                    None => {
                        return Err(DecodeError::MissingMember);
                    },
                };
                let minor = match Json::obj_get(vfields, "minor") {
                    Some(Json::Int(n)) => if *n >= 0 && *n <= 255 {
                        *n as u8
                    } else {
                        return Err(DecodeError::InvalidMember);
                    },
                    Some(_) => {
                        return Err(DecodeError::InvalidMember);
                    },
                    None => {
                        return Err(DecodeError::MissingMember);
                    },
                };
                Version { major, minor }
            },
            None => {
                return Err(DecodeError::MissingMember);
            },
        };
        let exporter_rp_id = match Json::obj_get(fields, "exporterRpId") {
            Some(Json::Str(s)) => s.clone(),
            Some(_) => {
                return Err(DecodeError::InvalidMember);
            },
            None => {
                return Err(DecodeError::MissingMember);
            },
        };
        let exporter_display_name = match Json::obj_get(fields, "exporterDisplayName") {
            Some(Json::Str(s)) => s.clone(),
            Some(_) => {
                return Err(DecodeError::InvalidMember);
            },
            None => {
                return Err(DecodeError::MissingMember);
            },
        };
        let timestamp = match Json::obj_get(fields, "timestamp") {
            Some(tj) => match Timestamp::decode(tj) {
                Ok(t) => t,
                Err(e) => {
                    return Err(DecodeError::Timestamp(e));
                },
            },
            None => {
                return Err(DecodeError::MissingMember);
            },
        };
        let acc_items = match Json::obj_get(fields, "accounts") {
            Some(Json::Arr(items)) => items,
            Some(_) => {
                return Err(DecodeError::InvalidMember);
            },
            None => {
                return Err(DecodeError::MissingMember);
            },
        };
        let mut accounts: Vec<Account> = Vec::new();
        let mut i: usize = 0;
        let ghost ajs = items_view(*acc_items);
        while i < acc_items.len()
            invariant
                ajs == items_view(*acc_items),
                i <= acc_items@.len(),
                accounts.deep_view().len() == i as int,
                forall|k: int|
                    0 <= k < i ==> account_decoded(#[trigger] ajs[k]) == Ok::<
                        AccountV,
                        DecodeError,
                    >(accounts.deep_view()[k]) && account_wf(accounts.deep_view()[k]),
            decreases acc_items@.len() - i,
        {
            proof {
                assert(ajs[i as int] == acc_items@[i as int]@);
            }
            match Account::decode(&acc_items[i]) {
                Ok(a) => {
                    accounts.push(a);
                    proof {
                        assert(accounts.deep_view()[i as int] == a@);
                    }
                },
                Err(e) => {
                    proof {
                        lemma_arr_decoded_err(account_decoder(), ajs, i as int, e);
                    }
                    return Err(e);
                },
            }
            i += 1;
        }
        proof {
            lemma_arr_decoded_ok(account_decoder(), ajs, accounts.deep_view());
            assert forall|k: int| 0 <= k < accounts.deep_view().len() implies account_wf(
                #[trigger] accounts.deep_view()[k],
            ) by {
                assert(account_decoded(ajs[k]) == Ok::<AccountV, DecodeError>(
                    accounts.deep_view()[k],
                ) && account_wf(accounts.deep_view()[k]));
            }
        }
        Ok(Header { version, exporter_rp_id, exporter_display_name, timestamp, accounts })
    }

    /// Encodes the whole exchange payload.
    #[verifier::loop_isolation(false)]
    #[verifier::rlimit(100)]
    pub fn encode(&self) -> (r: Json)
        requires
            header_wf(self@),
        ensures
            r@ == JsonV::Obj(header_entries(self@)),
    {
        let mut vfields: Vec<(String, Json)> = Vec::new();
        vfields.push(("major".to_owned(), Json::Int(self.version.major as i64)));
        vfields.push(("minor".to_owned(), Json::Int(self.version.minor as i64)));
        proof {
            assert(fields_view(vfields) =~= format_version_entries(self.version));
        }
        let mut fields: Vec<(String, Json)> = Vec::new();
        fields.push(("version".to_owned(), Json::Obj(vfields)));
        fields.push(("exporterRpId".to_owned(), Json::Str(self.exporter_rp_id.clone())));
        fields.push(
            ("exporterDisplayName".to_owned(), Json::Str(self.exporter_display_name.clone())),
        );
        fields.push(("timestamp".to_owned(), self.timestamp.encode()));
        let mut acc_items: Vec<Json> = Vec::new();
        let mut i: usize = 0;
        while i < self.accounts.len()
            invariant
                i <= self.accounts@.len(),
                acc_items@.len() == i,
                forall|k: int|
                    0 <= k < i ==> (#[trigger] acc_items@[k])@ == JsonV::Obj(
                        account_entries(self.accounts.deep_view()[k]),
                    ),
            decreases self.accounts@.len() - i,
        {
            proof {
                assert(account_wf(self.accounts.deep_view()[i as int]));
            }
            acc_items.push(self.accounts[i].encode());
            i += 1;
        }
        let ghost apos = fields_view(fields).len() as int;
        fields.push(("accounts".to_owned(), Json::Arr(acc_items)));
        proof {
            assert(items_view(fields@[apos].1->Arr_0) =~= self@.accounts.map_values(
                |a: AccountV| JsonV::Obj(account_entries(a)),
            ));
            assert(fields_view(fields) =~= header_entries(self@));
        }
        Json::Obj(fields)
    }
}

} // verus!
