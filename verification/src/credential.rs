//! Credentials: the open sum type at the heart of the format.
//!
//! A credential crosses the wire as an object whose `type` member selects
//! the payload shape. Decoding never fails merely because the type is
//! unrecognized: an unknown credential is captured whole, tag and fields,
//! and re-encoding reproduces its content.

use vstd::prelude::*;
use crate::b64url::{b64url_encoded, b64url_parse, base32_encoded, base32_parse, B64Url, Base32};
use crate::document::{linked_item_decoded, linked_item_entries, url_decoded, url_decoder, LinkedItem, LinkedItemV};
use crate::editable_field::{
    field_decoded, field_encoded, field_encoded_entries, EditableField, EditableFieldBoolean,
    EditableFieldConcealedString, EditableFieldCountryCode, EditableFieldDate,
    EditableFieldString, EditableFieldSubdivisionCode, EditableFieldWifiNetworkSecurityType,
    EditableFieldYearMonth, FieldV, WifiSecurityV,
};
use crate::error::DecodeError;
use crate::extensions::{extension_decoded, extension_encoded, Extension, ExtensionV};
use crate::json::{
    arr_decoded, fields_view, items_view, lemma_arr_decoded_err, lemma_arr_decoded_ok, lookup,
    Json, JsonV,
};
use crate::passkey::{passkey_decoded, passkey_entries, passkey_wf, PasskeyCredential, PasskeyCredentialV};
use crate::text::str_eq;
use crate::editable_field::Date;

verus! {

/// The algorithm used to generate one-time-password hashes.
#[derive(Debug, Clone, PartialEq, Eq)]
pub enum OTPHashAlgorithm {
    Sha1,
    Sha256,
    Sha512,
    /// An algorithm this implementation does not know, kept verbatim.
    /// Importers ignore credential entries with unknown algorithms.
    Unknown(String),
}

/// The model of an OTP hash algorithm.
pub enum OTPHashAlgorithmV {
    Sha1,
    Sha256,
    Sha512,
    Unknown(Seq<char>),
}

impl View for OTPHashAlgorithm {
    type V = OTPHashAlgorithmV;

    open spec fn view(&self) -> OTPHashAlgorithmV {
        match self {
            OTPHashAlgorithm::Sha1 => OTPHashAlgorithmV::Sha1,
            OTPHashAlgorithm::Sha256 => OTPHashAlgorithmV::Sha256,
            OTPHashAlgorithm::Sha512 => OTPHashAlgorithmV::Sha512,
            OTPHashAlgorithm::Unknown(s) => OTPHashAlgorithmV::Unknown(s@),
        }
    }
}

/// The wire name of an OTP hash algorithm.
pub open spec fn otp_alg_name(v: OTPHashAlgorithmV) -> Seq<char> {
    match v {
        OTPHashAlgorithmV::Sha1 => "sha1"@,
        OTPHashAlgorithmV::Sha256 => "sha256"@,
        OTPHashAlgorithmV::Sha512 => "sha512"@,
        OTPHashAlgorithmV::Unknown(s) => s,
    }
}

/// The OTP hash algorithm a wire name denotes; an unknown name is kept.
pub open spec fn otp_alg_parsed(s: Seq<char>) -> OTPHashAlgorithmV {
    if s == "sha1"@ {
        OTPHashAlgorithmV::Sha1
    } else if s == "sha256"@ {
        OTPHashAlgorithmV::Sha256
    } else if s == "sha512"@ {
        OTPHashAlgorithmV::Sha512
    } else {
        OTPHashAlgorithmV::Unknown(s)
    }
}

impl OTPHashAlgorithm {
    /// The algorithm a wire name denotes.
    pub fn from_wire(s: &str) -> (r: Self)
        ensures
            r@ == otp_alg_parsed(s@),
    {
        if str_eq(s, "sha1") {
            OTPHashAlgorithm::Sha1
        } else if str_eq(s, "sha256") {
            OTPHashAlgorithm::Sha256
        } else if str_eq(s, "sha512") {
            OTPHashAlgorithm::Sha512
        } else {
            OTPHashAlgorithm::Unknown(s.to_owned())
        }
    }

    /// The algorithm's wire name.
    pub fn wire_name(&self) -> (r: String)
        ensures
            r@ == otp_alg_name(self@),
    {
        match self {
            OTPHashAlgorithm::Sha1 => "sha1".to_owned(),
            OTPHashAlgorithm::Sha256 => "sha256".to_owned(),
            OTPHashAlgorithm::Sha512 => "sha512".to_owned(),
            OTPHashAlgorithm::Unknown(s) => s.clone(),
        }
    }
}

/// A free-form secure note.
#[derive(Debug, Clone, PartialEq, Eq)]
pub struct NoteCredential {
    /// The user-defined note content.
    pub content: EditableField<EditableFieldString>,
}

/// The model of a note credential.
pub struct NoteCredentialV {
    pub content: FieldV<Seq<char>>,
}

impl View for NoteCredential {
    type V = NoteCredentialV;

    open spec fn view(&self) -> NoteCredentialV {
        NoteCredentialV { content: self.content@ }
    }
}

/// The field list of an encoded note, without the `type` tag.
pub open spec fn note_entries(v: NoteCredentialV) -> Seq<(Seq<char>, JsonV)> {
    seq![
        ("content"@, field_encoded::<EditableFieldString>(v.content)),
    ]
}

/// What decoding a note from an object's field list yields.
pub open spec fn note_decoded(o: Seq<(Seq<char>, JsonV)>) -> Result<NoteCredentialV, DecodeError> {
    match lookup(o, "content"@) {
        Some(cj) => match field_decoded::<EditableFieldString>(cj) {
            Ok(f) => Ok(NoteCredentialV { content: f }),
            Err(e) => Err(DecodeError::Field(e)),
        },
        None => Err(DecodeError::MissingMember),
    }
}

impl NoteCredential {
    /// Decodes a note from an object's field list.
    pub fn decode_fields(fields: &Vec<(String, Json)>) -> (r: Result<Self, DecodeError>)
        ensures
            match r {
                Ok(v) => note_decoded(fields_view(*fields)) == Ok::<NoteCredentialV, DecodeError>(
                    v@,
                ),
                Err(e) => note_decoded(fields_view(*fields)) == Err::<NoteCredentialV, DecodeError>(
                    e,
                ),
            },
    {
        let content = match Json::obj_get(fields, "content") {
            Some(cj) => match EditableField::<EditableFieldString>::decode(cj) {
                Ok(f) => f,
                Err(e) => {
                    return Err(DecodeError::Field(e));
                },
            },
            None => {
                return Err(DecodeError::MissingMember);
            },
        };
        Ok(NoteCredential { content })
    }

    /// Appends the note's members to an object's field list.
    pub fn push_entries(&self, fields: &mut Vec<(String, Json)>)
        ensures
            fields_view(*final(fields)) == fields_view(*old(fields)) + note_entries(self@),
    {
        fields.push(("content".to_owned(), self.content.encode()));
        proof {
            assert(fields_view(*fields) =~= fields_view(*old(fields)) + note_entries(self@));
        }
    }
}

/// A placeholder for a binary file: its identity and integrity metadata.
#[derive(Debug, Clone, PartialEq, Eq)]
pub struct FileCredential {
    /// The file's identifier, used as its name in the outer archive.
    pub id: B64Url,
    /// The file name, with extension if applicable.
    pub name: String,
    /// The decrypted size in bytes.
    pub decrypted_size: u64,
    /// The SHA256 hash of the decrypted file, for integrity checking.
    pub integrity_hash: B64Url,
}

/// The model of a file credential.
pub struct FileCredentialV {
    pub id: Seq<u8>,
    pub name: Seq<char>,
    pub decrypted_size: u64,
    pub integrity_hash: Seq<u8>,
}

impl View for FileCredential {
    type V = FileCredentialV;

    open spec fn view(&self) -> FileCredentialV {
        FileCredentialV {
            id: self.id@,
            name: self.name@,
            decrypted_size: self.decrypted_size,
            integrity_hash: self.integrity_hash@,
        }
    }
}

/// A file's size must fit the signed 64-bit wire integer.
pub open spec fn file_wf(v: FileCredentialV) -> bool {
    v.decrypted_size <= i64::MAX
}

/// The field list of an encoded file credential, without the `type` tag.
pub open spec fn file_entries(v: FileCredentialV) -> Seq<(Seq<char>, JsonV)> {
    seq![
        ("id"@, JsonV::Str(b64url_encoded(v.id))),
        ("name"@, JsonV::Str(v.name)),
        ("decryptedSize"@, JsonV::Int(v.decrypted_size as int)),
        ("integrityHash"@, JsonV::Str(b64url_encoded(v.integrity_hash))),
    ]
}

/// What decoding a file credential from an object's field list yields.
pub open spec fn file_decoded(o: Seq<(Seq<char>, JsonV)>) -> Result<FileCredentialV, DecodeError> {
    match lookup(o, "id"@) {
        Some(JsonV::Str(ids)) => match b64url_parse(ids) {
            Some(id) => match lookup(o, "name"@) {
                Some(JsonV::Str(name)) => match lookup(o, "decryptedSize"@) {
                    Some(JsonV::Int(n)) => if 0 <= n <= i64::MAX {
                        match lookup(o, "integrityHash"@) {
                            Some(JsonV::Str(hs)) => match b64url_parse(hs) {
                                Some(hash) => Ok(
                                    FileCredentialV {
                                        id,
                                        name,
                                        decrypted_size: n as u64,
                                        integrity_hash: hash,
                                    },
                                ),
                                None => Err(DecodeError::InvalidMember),
                            },
                            Some(_) => Err(DecodeError::InvalidMember),
                            None => Err(DecodeError::MissingMember),
                        }
                    } else {
                        Err(DecodeError::InvalidMember)
                    },
                    Some(_) => Err(DecodeError::InvalidMember),
                    None => Err(DecodeError::MissingMember),
                },
                Some(_) => Err(DecodeError::InvalidMember),
                None => Err(DecodeError::MissingMember),
            },
            None => Err(DecodeError::InvalidMember),
        },
        Some(_) => Err(DecodeError::InvalidMember),
        None => Err(DecodeError::MissingMember),
    }
}

impl FileCredential {
    /// Decodes a file credential from an object's field list.
    pub fn decode_fields(fields: &Vec<(String, Json)>) -> (r: Result<Self, DecodeError>)
        ensures
            match r {
                Ok(v) => file_decoded(fields_view(*fields)) == Ok::<FileCredentialV, DecodeError>(
                    v@,
                ) && file_wf(v@),
                Err(e) => file_decoded(fields_view(*fields)) == Err::<FileCredentialV, DecodeError>(
                    e,
                ),
            },
    {
        let id = match Json::obj_get(fields, "id") {
            Some(Json::Str(s)) => match B64Url::decode(s.as_str()) {
                Ok(b) => b,
                Err(_) => {
                    return Err(DecodeError::InvalidMember);
                },
            },
            Some(_) => {
                return Err(DecodeError::InvalidMember);
            },
            None => {
                return Err(DecodeError::MissingMember);
            },
        };
        let name = match Json::obj_get(fields, "name") {
            Some(Json::Str(s)) => s.clone(),
            Some(_) => {
                return Err(DecodeError::InvalidMember);
            },
            None => {
                return Err(DecodeError::MissingMember);
            },
        };
        let decrypted_size = match Json::obj_get(fields, "decryptedSize") {
            Some(Json::Int(n)) => if *n >= 0 {
                *n as u64
            } else {
                return Err(DecodeError::InvalidMember);
            },
            Some(_) => {
                return Err(DecodeError::InvalidMember);
            },
            None => {
                return Err(DecodeError::MissingMember);
            },
        };
        let integrity_hash = match Json::obj_get(fields, "integrityHash") {
            Some(Json::Str(s)) => match B64Url::decode(s.as_str()) {
                Ok(b) => b,
                Err(_) => {
                    return Err(DecodeError::InvalidMember);
                },
            },
            Some(_) => {
                return Err(DecodeError::InvalidMember);
            },
            None => {
                return Err(DecodeError::MissingMember);
            },
        };
        Ok(FileCredential { id, name, decrypted_size, integrity_hash })
    }

    /// Appends the file credential's members to an object's field list.
    pub fn push_entries(&self, fields: &mut Vec<(String, Json)>)
        requires
            file_wf(self@),
        ensures
            fields_view(*final(fields)) == fields_view(*old(fields)) + file_entries(self@),
    {
        fields.push(("id".to_owned(), Json::Str(self.id.to_string())));
        fields.push(("name".to_owned(), Json::Str(self.name.clone())));
        fields.push(("decryptedSize".to_owned(), Json::Int(self.decrypted_size as i64)));
        fields.push(("integrityHash".to_owned(), Json::Str(self.integrity_hash.to_string())));
        proof {
            assert(fields_view(*fields) =~= fields_view(*old(fields)) + file_entries(self@));
        }
    }
}

/// A machine-generated password, created independently of any login.
#[derive(Debug, Clone, PartialEq, Eq)]
pub struct GeneratedPasswordCredential {
    /// The generated password.
    pub password: String,
}

/// The model of a generated password.
pub struct GeneratedPasswordCredentialV {
    pub password: Seq<char>,
}

impl View for GeneratedPasswordCredential {
    type V = GeneratedPasswordCredentialV;

    open spec fn view(&self) -> GeneratedPasswordCredentialV {
        GeneratedPasswordCredentialV { password: self.password@ }
    }
}

/// The field list of an encoded generated password, without the `type` tag.
pub open spec fn generated_password_entries(v: GeneratedPasswordCredentialV) -> Seq<
    (Seq<char>, JsonV),
> {
    seq![("password"@, JsonV::Str(v.password))]
}

/// What decoding a generated password from an object's field list yields.
pub open spec fn generated_password_decoded(o: Seq<(Seq<char>, JsonV)>) -> Result<
    GeneratedPasswordCredentialV,
    DecodeError,
> {
    match lookup(o, "password"@) {
        Some(JsonV::Str(p)) => Ok(GeneratedPasswordCredentialV { password: p }),
        Some(_) => Err(DecodeError::InvalidMember),
        None => Err(DecodeError::MissingMember),
    }
}

impl GeneratedPasswordCredential {
    /// Decodes a generated password from an object's field list.
    pub fn decode_fields(fields: &Vec<(String, Json)>) -> (r: Result<Self, DecodeError>)
        ensures
            match r {
                Ok(v) => generated_password_decoded(fields_view(*fields)) == Ok::<
                    GeneratedPasswordCredentialV,
                    DecodeError,
                >(v@),
                Err(e) => generated_password_decoded(fields_view(*fields)) == Err::<
                    GeneratedPasswordCredentialV,
                    DecodeError,
                >(e),
            },
    {
        let password = match Json::obj_get(fields, "password") {
            Some(Json::Str(s)) => s.clone(),
            Some(_) => {
                return Err(DecodeError::InvalidMember);
            },
            None => {
                return Err(DecodeError::MissingMember);
            },
        };
        Ok(GeneratedPasswordCredential { password })
    }

    /// Appends the generated password's members to an object's field list.
    pub fn push_entries(&self, fields: &mut Vec<(String, Json)>)
        ensures
            fields_view(*final(fields)) == fields_view(*old(fields)) + generated_password_entries(
                self@,
            ),
    {
        fields.push(("password".to_owned(), Json::Str(self.password.clone())));
        proof {
            assert(fields_view(*fields) =~= fields_view(*old(fields))
                + generated_password_entries(self@));
        }
    }
}

/// A pointer to another item, marking the two as logically linked.
#[derive(Debug, Clone, PartialEq, Eq)]
pub struct ItemReferenceCredential {
    /// The reference to the other item. The other item may be absent from
    /// the exchange when it is owned by a different account.
    pub reference: LinkedItem,
}

/// The model of an item reference.
pub struct ItemReferenceCredentialV {
    pub reference: LinkedItemV,
}

impl View for ItemReferenceCredential {
    type V = ItemReferenceCredentialV;

    open spec fn view(&self) -> ItemReferenceCredentialV {
        ItemReferenceCredentialV { reference: self.reference@ }
    }
}

/// The field list of an encoded item reference, without the `type` tag.
pub open spec fn item_reference_entries(v: ItemReferenceCredentialV) -> Seq<(Seq<char>, JsonV)> {
    seq![("reference"@, JsonV::Obj(linked_item_entries(v.reference)))]
}

/// What decoding an item reference from an object's field list yields.
pub open spec fn item_reference_decoded(o: Seq<(Seq<char>, JsonV)>) -> Result<
    ItemReferenceCredentialV,
    DecodeError,
> {
    match lookup(o, "reference"@) {
        Some(rj) => match linked_item_decoded(rj) {
            Ok(li) => Ok(ItemReferenceCredentialV { reference: li }),
            Err(e) => Err(e),
        },
        None => Err(DecodeError::MissingMember),
    }
}

impl ItemReferenceCredential {
    /// Decodes an item reference from an object's field list.
    pub fn decode_fields(fields: &Vec<(String, Json)>) -> (r: Result<Self, DecodeError>)
        ensures
            match r {
                Ok(v) => item_reference_decoded(fields_view(*fields)) == Ok::<
                    ItemReferenceCredentialV,
                    DecodeError,
                >(v@),
                Err(e) => item_reference_decoded(fields_view(*fields)) == Err::<
                    ItemReferenceCredentialV,
                    DecodeError,
                >(e),
            },
    {
        let reference = match Json::obj_get(fields, "reference") {
            Some(rj) => match LinkedItem::decode(rj) {
                Ok(li) => li,
                Err(e) => {
                    return Err(e);
                },
            },
            None => {
                return Err(DecodeError::MissingMember);
            },
        };
        Ok(ItemReferenceCredential { reference })
    }

    /// Appends the item reference's members to an object's field list.
    pub fn push_entries(&self, fields: &mut Vec<(String, Json)>)
        ensures
            fields_view(*final(fields)) == fields_view(*old(fields)) + item_reference_entries(
                self@,
            ),
    {
        fields.push(("reference".to_owned(), self.reference.encode()));
        proof {
            assert(fields_view(*fields) =~= fields_view(*old(fields)) + item_reference_entries(
                self@,
            ));
        }
    }
}

/// A time-based one-time-password credential.
#[derive(Debug, Clone, PartialEq, Eq)]
pub struct TotpCredential {
    /// The shared secret used to generate the one-time passwords, carried
    /// as base32 text.
    pub secret: Base32,
    /// The refresh period in seconds; 30 is the customary default.
    pub period: u8,
    /// The number of digits shown each period; 6 is the customary default.
    pub digits: u8,
    /// The username of the account this credential is for.
    pub username: Option<String>,
    /// The hash algorithm; entries with unknown algorithms are ignored by
    /// importers.
    pub algorithm: OTPHashAlgorithm,
    /// The relying party that issued the credential.
    pub issuer: Option<String>,
}

/// The model of a TOTP credential.
pub struct TotpCredentialV {
    pub secret: Seq<u8>,
    pub period: u8,
    pub digits: u8,
    pub username: Option<Seq<char>>,
    pub algorithm: OTPHashAlgorithmV,
    pub issuer: Option<Seq<char>>,
}

impl View for TotpCredential {
    type V = TotpCredentialV;

    open spec fn view(&self) -> TotpCredentialV {
        TotpCredentialV {
            secret: self.secret@,
            period: self.period,
            digits: self.digits,
            username: match &self.username {
                Some(u) => Some(u@),
                None => None,
            },
            algorithm: self.algorithm@,
            issuer: match &self.issuer {
                Some(i) => Some(i@),
                None => None,
            },
        }
    }
}

/// The field list of an encoded TOTP credential, without the `type` tag.
pub open spec fn totp_entries(v: TotpCredentialV) -> Seq<(Seq<char>, JsonV)> {
    seq![
        ("secret"@, JsonV::Str(base32_encoded(v.secret))),
        ("period"@, JsonV::Int(v.period as int)),
        ("digits"@, JsonV::Int(v.digits as int)),
    ] + (match v.username {
        Some(u) => seq![("username"@, JsonV::Str(u))],
        None => Seq::<(Seq<char>, JsonV)>::empty(),
    }) + seq![("algorithm"@, JsonV::Str(otp_alg_name(v.algorithm)))] + (match v.issuer {
        Some(i) => seq![("issuer"@, JsonV::Str(i))],
        None => Seq::<(Seq<char>, JsonV)>::empty(),
    })
}

/// What decoding a TOTP credential from an object's field list yields.
pub open spec fn totp_decoded(o: Seq<(Seq<char>, JsonV)>) -> Result<TotpCredentialV, DecodeError> {
    match lookup(o, "secret"@) {
        Some(JsonV::Str(ss)) => match base32_parse(ss) {
            Some(secret) => match lookup(o, "period"@) {
                Some(JsonV::Int(p)) => if 0 <= p <= u8::MAX {
                    match lookup(o, "digits"@) {
                        Some(JsonV::Int(d)) => if 0 <= d <= u8::MAX {
                            let username = match lookup(o, "username"@) {
                                Some(JsonV::Str(u)) => Ok(Some(u)),
                                Some(_) => Err(DecodeError::InvalidMember),
                                None => Ok(None),
                            };
                            match username {
                                Ok(username) => match lookup(o, "algorithm"@) {
                                    Some(JsonV::Str(a)) => {
                                        let issuer = match lookup(o, "issuer"@) {
                                            Some(JsonV::Str(i)) => Ok(Some(i)),
                                            Some(_) => Err(DecodeError::InvalidMember),
                                            None => Ok(None),
                                        };
                                        match issuer {
                                            Ok(issuer) => Ok(
                                                TotpCredentialV {
                                                    secret,
                                                    period: p as u8,
                                                    digits: d as u8,
                                                    username,
                                                    algorithm: otp_alg_parsed(a),
                                                    issuer,
                                                },
                                            ),
                                            Err(e) => Err(e),
                                        }
                                    },
                                    Some(_) => Err(DecodeError::InvalidMember),
                                    None => Err(DecodeError::MissingMember),
                                },
                                Err(e) => Err(e),
                            }
                        } else {
                            Err(DecodeError::InvalidMember)
                        },
                        Some(_) => Err(DecodeError::InvalidMember),
                        None => Err(DecodeError::MissingMember),
                    }
                } else {
                    Err(DecodeError::InvalidMember)
                },
                Some(_) => Err(DecodeError::InvalidMember),
                None => Err(DecodeError::MissingMember),
            },
            None => Err(DecodeError::InvalidMember),
        },
        Some(_) => Err(DecodeError::InvalidMember),
        None => Err(DecodeError::MissingMember),
    }
}

impl TotpCredential {
    /// Decodes a TOTP credential from an object's field list.
    pub fn decode_fields(fields: &Vec<(String, Json)>) -> (r: Result<Self, DecodeError>)
        ensures
            match r {
                Ok(v) => totp_decoded(fields_view(*fields)) == Ok::<TotpCredentialV, DecodeError>(
                    v@,
                ),
                Err(e) => totp_decoded(fields_view(*fields)) == Err::<TotpCredentialV, DecodeError>(
                    e,
                ),
            },
    {
        let secret = match Json::obj_get(fields, "secret") {
            Some(Json::Str(s)) => match Base32::decode(s.as_str()) {
                Ok(b) => b,
                Err(_) => {
                    return Err(DecodeError::InvalidMember);
                },
            },
            Some(_) => {
                return Err(DecodeError::InvalidMember);
            },
            None => {
                return Err(DecodeError::MissingMember);
            },
        };
        let period = match Json::obj_get(fields, "period") {
            Some(Json::Int(p)) => if *p >= 0 && *p <= 255 {
                *p as u8
            } else {
                return Err(DecodeError::InvalidMember);
            },
            Some(_) => {
                return Err(DecodeError::InvalidMember);
            },
            None => {
                return Err(DecodeError::MissingMember);
            },
        };
        let digits = match Json::obj_get(fields, "digits") {
            Some(Json::Int(d)) => if *d >= 0 && *d <= 255 {
                *d as u8
            } else {
                return Err(DecodeError::InvalidMember);
            },
            Some(_) => {
                return Err(DecodeError::InvalidMember);
            },
            None => {
                return Err(DecodeError::MissingMember);
            },
        };
        let username = match Json::obj_get(fields, "username") {
            Some(Json::Str(s)) => Some(s.clone()),
            Some(_) => {
                return Err(DecodeError::InvalidMember);
            },
            None => None,
        };
        let algorithm = match Json::obj_get(fields, "algorithm") {
            Some(Json::Str(s)) => OTPHashAlgorithm::from_wire(s.as_str()),
            Some(_) => {
                return Err(DecodeError::InvalidMember);
            },
            None => {
                return Err(DecodeError::MissingMember);
            },
        };
        let issuer = match Json::obj_get(fields, "issuer") {
            Some(Json::Str(s)) => Some(s.clone()),
            Some(_) => {
                return Err(DecodeError::InvalidMember);
            },
            None => None,
        };
        Ok(TotpCredential { secret, period, digits, username, algorithm, issuer })
    }

    /// Appends the TOTP credential's members to an object's field list.
    pub fn push_entries(&self, fields: &mut Vec<(String, Json)>)
        ensures
            fields_view(*final(fields)) == fields_view(*old(fields)) + totp_entries(self@),
    {
        fields.push(("secret".to_owned(), Json::Str(self.secret.to_string())));
        fields.push(("period".to_owned(), Json::Int(self.period as i64)));
        fields.push(("digits".to_owned(), Json::Int(self.digits as i64)));
        match &self.username {
            Some(u) => {
                fields.push(("username".to_owned(), Json::Str(u.clone())));
            },
            None => {},
        }
        fields.push(("algorithm".to_owned(), Json::Str(self.algorithm.wire_name())));
        match &self.issuer {
            Some(i) => {
                fields.push(("issuer".to_owned(), Json::Str(i.clone())));
            },
            None => {},
        }
        proof {
            assert(fields_view(*fields) =~= fields_view(*old(fields)) + totp_entries(self@));
        }
    }
}

/// A username and password login, for basic access authentication or a
/// web form.
#[derive(Debug, Clone, PartialEq, Eq)]
pub struct BasicAuthCredential {
    /// The URLs this credential is associated with.
    pub urls: Vec<String>,
    /// The username.
    pub username: Option<EditableField<EditableFieldString>>,
    /// The password.
    pub password: Option<EditableField<EditableFieldConcealedString>>,
}

/// The model of a basic-auth credential.
pub struct BasicAuthCredentialV {
    pub urls: Seq<Seq<char>>,
    pub username: Option<FieldV<Seq<char>>>,
    pub password: Option<FieldV<Seq<char>>>,
}

impl View for BasicAuthCredential {
    type V = BasicAuthCredentialV;

    open spec fn view(&self) -> BasicAuthCredentialV {
        BasicAuthCredentialV {
            urls: self.urls.deep_view(),
            username: match &self.username {
                Some(u) => Some(u@),
                None => None,
            },
            password: match &self.password {
                Some(p) => Some(p@),
                None => None,
            },
        }
    }
}

/// The field list of an encoded basic-auth credential, without the `type`
/// tag.
pub open spec fn basic_auth_entries(v: BasicAuthCredentialV) -> Seq<(Seq<char>, JsonV)> {
    seq![("urls"@, JsonV::Arr(v.urls.map_values(|u: Seq<char>| JsonV::Str(u))))] + (match v.username {
        Some(u) => seq![("username"@, field_encoded::<EditableFieldString>(u))],
        None => Seq::<(Seq<char>, JsonV)>::empty(),
    }) + (match v.password {
        Some(p) => seq![("password"@, field_encoded::<EditableFieldConcealedString>(p))],
        None => Seq::<(Seq<char>, JsonV)>::empty(),
    })
}

/// What decoding a basic-auth credential from an object's field list
/// yields.
pub open spec fn basic_auth_decoded(o: Seq<(Seq<char>, JsonV)>) -> Result<
    BasicAuthCredentialV,
    DecodeError,
> {
    match lookup(o, "urls"@) {
        Some(JsonV::Arr(ujs)) => match arr_decoded(url_decoder(), ujs) {
            Ok(urls) => {
                let username = match lookup(o, "username"@) {
                    Some(uj) => match field_decoded::<EditableFieldString>(uj) {
                        Ok(f) => Ok(Some(f)),
                        Err(e) => Err(DecodeError::Field(e)),
                    },
                    None => Ok(None),
                };
                match username {
                    Ok(username) => {
                        let password = match lookup(o, "password"@) {
                            Some(pj) => match field_decoded::<EditableFieldConcealedString>(pj) {
                                Ok(f) => Ok(Some(f)),
                                Err(e) => Err(DecodeError::Field(e)),
                            },
                            None => Ok(None),
                        };
                        match password {
                            Ok(password) => Ok(BasicAuthCredentialV { urls, username, password }),
                            Err(e) => Err(e),
                        }
                    },
                    Err(e) => Err(e),
                }
            },
            Err(e) => Err(e),
        },
        Some(_) => Err(DecodeError::InvalidMember),
        None => Err(DecodeError::MissingMember),
    }
}

impl BasicAuthCredential {
    /// Decodes a basic-auth credential from an object's field list.
    #[verifier::loop_isolation(false)]
    pub fn decode_fields(fields: &Vec<(String, Json)>) -> (r: Result<Self, DecodeError>)
        ensures
            match r {
                Ok(v) => basic_auth_decoded(fields_view(*fields)) == Ok::<
                    BasicAuthCredentialV,
                    DecodeError,
                >(v@),
                Err(e) => basic_auth_decoded(fields_view(*fields)) == Err::<
                    BasicAuthCredentialV,
                    DecodeError,
                >(e),
            },
    {
        let urls_items = match Json::obj_get(fields, "urls") {
            Some(Json::Arr(items)) => items,
            Some(_) => {
                return Err(DecodeError::InvalidMember);
            },
            None => {
                return Err(DecodeError::MissingMember);
            },
        };
        let mut urls: Vec<String> = Vec::new();
        let mut i: usize = 0;
        let ghost ujs = items_view(*urls_items);
        while i < urls_items.len()
            invariant
                ujs == items_view(*urls_items),
                i <= urls_items@.len(),
                urls.deep_view().len() == i as int,
                forall|k: int|
                    0 <= k < i ==> url_decoded(#[trigger] ujs[k]) == Ok::<Seq<char>, DecodeError>(
                        urls.deep_view()[k],
                    ),
            decreases urls_items@.len() - i,
        {
            proof {
                assert(ujs[i as int] == urls_items@[i as int]@);
            }
            match &urls_items[i] {
                Json::Str(s) => {
                    urls.push(s.clone());
                    proof {
                        assert(urls.deep_view()[i as int] == s@);
                    }
                },
                _ => {
                    proof {
                        lemma_arr_decoded_err(
                            url_decoder(),
                            ujs,
                            i as int,
                            DecodeError::InvalidMember,
                        );
                    }
                    return Err(DecodeError::InvalidMember);
                },
            }
            i += 1;
        }
        proof {
            lemma_arr_decoded_ok(url_decoder(), ujs, urls.deep_view());
        }
        let username = match Json::obj_get(fields, "username") {
            Some(uj) => match EditableField::<EditableFieldString>::decode(uj) {
                Ok(f) => Some(f),
                Err(e) => {
                    return Err(DecodeError::Field(e));
                },
            },
            None => None,
        };
        let password = match Json::obj_get(fields, "password") {
            Some(pj) => match EditableField::<EditableFieldConcealedString>::decode(pj) {
                Ok(f) => Some(f),
                Err(e) => {
                    return Err(DecodeError::Field(e));
                },
            },
            None => None,
        };
        Ok(BasicAuthCredential { urls, username, password })
    }

    /// Appends the basic-auth credential's members to an object's field
    /// list.
    #[verifier::loop_isolation(false)]
    pub fn push_entries(&self, fields: &mut Vec<(String, Json)>)
        ensures
            fields_view(*final(fields)) == fields_view(*old(fields)) + basic_auth_entries(self@),
    {
        let mut urls_items: Vec<Json> = Vec::new();
        let mut i: usize = 0;
        while i < self.urls.len()
            invariant
                i <= self.urls@.len(),
                urls_items@.len() == i,
                forall|k: int|
                    0 <= k < i ==> (#[trigger] urls_items@[k])@ == JsonV::Str(
                        self.urls.deep_view()[k],
                    ),
            decreases self.urls@.len() - i,
        {
            urls_items.push(Json::Str(self.urls[i].clone()));
            i += 1;
        }
        let ghost before = fields_view(*fields);
        fields.push(("urls".to_owned(), Json::Arr(urls_items)));
        match &self.username {
            Some(u) => {
                fields.push(("username".to_owned(), u.encode()));
            },
            None => {},
        }
        match &self.password {
            Some(p) => {
                fields.push(("password".to_owned(), p.encode()));
            },
            None => {},
        }
        proof {
            assert(items_view(fields@[before.len() as int].1->Arr_0) =~= self@.urls.map_values(
                |u: Seq<char>| JsonV::Str(u),
            ));
            assert(fields_view(*fields) =~= before + basic_auth_entries(self@));
        }
    }
}

/// A Wi-Fi passphrase credential.
#[derive(Debug, Clone, PartialEq, Eq)]
pub struct WifiCredential {
    /// The network name.
    pub ssid: Option<EditableField<EditableFieldString>>,
    /// The network security type.
    pub network_security_type: Option<EditableField<EditableFieldWifiNetworkSecurityType>>,
    /// The passphrase.
    pub passphrase: Option<EditableField<EditableFieldConcealedString>>,
    /// Whether the network is hidden.
    pub hidden: Option<EditableField<EditableFieldBoolean>>,
}

/// The model of a Wi-Fi credential.
pub struct WifiCredentialV {
    pub ssid: Option<FieldV<Seq<char>>>,
    pub network_security_type: Option<FieldV<WifiSecurityV>>,
    pub passphrase: Option<FieldV<Seq<char>>>,
    pub hidden: Option<FieldV<bool>>,
}

impl View for WifiCredential {
    type V = WifiCredentialV;

    open spec fn view(&self) -> WifiCredentialV {
        WifiCredentialV {
            ssid: match &self.ssid {
                Some(s) => Some(s@),
                None => None,
            },
            network_security_type: match &self.network_security_type {
                Some(n) => Some(n@),
                None => None,
            },
            passphrase: match &self.passphrase {
                Some(p) => Some(p@),
                None => None,
            },
            hidden: match &self.hidden {
                Some(h) => Some(h@),
                None => None,
            },
        }
    }
}

/// The field list of an encoded Wi-Fi credential, without the `type` tag.
pub open spec fn wifi_entries(v: WifiCredentialV) -> Seq<(Seq<char>, JsonV)> {
    (match v.ssid {
        Some(s) => seq![("ssid"@, field_encoded::<EditableFieldString>(s))],
        None => Seq::<(Seq<char>, JsonV)>::empty(),
    }) + (match v.network_security_type {
        Some(n) => seq![
            ("networkSecurityType"@, field_encoded::<EditableFieldWifiNetworkSecurityType>(n)),
        ],
        None => Seq::<(Seq<char>, JsonV)>::empty(),
    }) + (match v.passphrase {
        Some(p) => seq![("passphrase"@, field_encoded::<EditableFieldConcealedString>(p))],
        None => Seq::<(Seq<char>, JsonV)>::empty(),
    }) + (match v.hidden {
        Some(h) => seq![("hidden"@, field_encoded::<EditableFieldBoolean>(h))],
        None => Seq::<(Seq<char>, JsonV)>::empty(),
    })
}

/// What decoding a Wi-Fi credential from an object's field list yields.
pub open spec fn wifi_decoded(o: Seq<(Seq<char>, JsonV)>) -> Result<WifiCredentialV, DecodeError> {
    let ssid = match lookup(o, "ssid"@) {
        Some(sj) => match field_decoded::<EditableFieldString>(sj) {
            Ok(f) => Ok(Some(f)),
            Err(e) => Err(DecodeError::Field(e)),
        },
        None => Ok(None),
    };
    match ssid {
        Ok(ssid) => {
            let nst = match lookup(o, "networkSecurityType"@) {
                Some(nj) => match field_decoded::<EditableFieldWifiNetworkSecurityType>(nj) {
                    Ok(f) => Ok(Some(f)),
                    Err(e) => Err(DecodeError::Field(e)),
                },
                None => Ok(None),
            };
            match nst {
                Ok(network_security_type) => {
                    let pass = match lookup(o, "passphrase"@) {
                        Some(pj) => match field_decoded::<EditableFieldConcealedString>(pj) {
                            Ok(f) => Ok(Some(f)),
                            Err(e) => Err(DecodeError::Field(e)),
                        },
                        None => Ok(None),
                    };
                    match pass {
                        Ok(passphrase) => {
                            let hidden = match lookup(o, "hidden"@) {
                                Some(hj) => match field_decoded::<EditableFieldBoolean>(hj) {
                                    Ok(f) => Ok(Some(f)),
                                    Err(e) => Err(DecodeError::Field(e)),
                                },
                                None => Ok(None),
                            };
                            match hidden {
                                Ok(hidden) => Ok(
                                    WifiCredentialV {
                                        ssid,
                                        network_security_type,
                                        passphrase,
                                        hidden,
                                    },
                                ),
                                Err(e) => Err(e),
                            }
                        },
                        Err(e) => Err(e),
                    }
                },
                Err(e) => Err(e),
            }
        },
        Err(e) => Err(e),
    }
}

impl WifiCredential {
    /// Decodes a Wi-Fi credential from an object's field list.
    pub fn decode_fields(fields: &Vec<(String, Json)>) -> (r: Result<Self, DecodeError>)
        ensures
            match r {
                Ok(v) => wifi_decoded(fields_view(*fields)) == Ok::<WifiCredentialV, DecodeError>(
                    v@,
                ),
                Err(e) => wifi_decoded(fields_view(*fields)) == Err::<WifiCredentialV, DecodeError>(
                    e,
                ),
            },
    {
        let ssid = match Json::obj_get(fields, "ssid") {
            Some(sj) => match EditableField::<EditableFieldString>::decode(sj) {
                Ok(f) => Some(f),
                Err(e) => {
                    return Err(DecodeError::Field(e));
                },
            },
            None => None,
        };
        let network_security_type = match Json::obj_get(fields, "networkSecurityType") {
            Some(nj) => match EditableField::<EditableFieldWifiNetworkSecurityType>::decode(nj) {
                Ok(f) => Some(f),
                Err(e) => {
                    return Err(DecodeError::Field(e));
                },
            },
            None => None,
        };
        let passphrase = match Json::obj_get(fields, "passphrase") {
            Some(pj) => match EditableField::<EditableFieldConcealedString>::decode(pj) {
                Ok(f) => Some(f),
                Err(e) => {
                    return Err(DecodeError::Field(e));
                },
            },
            None => None,
        };
        let hidden = match Json::obj_get(fields, "hidden") {
            Some(hj) => match EditableField::<EditableFieldBoolean>::decode(hj) {
                Ok(f) => Some(f),
                Err(e) => {
                    return Err(DecodeError::Field(e));
                },
            },
            None => None,
        };
        Ok(WifiCredential { ssid, network_security_type, passphrase, hidden })
    }

    /// Appends the Wi-Fi credential's members to an object's field list.
    pub fn push_entries(&self, fields: &mut Vec<(String, Json)>)
        ensures
            fields_view(*final(fields)) == fields_view(*old(fields)) + wifi_entries(self@),
    {
        match &self.ssid {
            Some(s) => {
                fields.push(("ssid".to_owned(), s.encode()));
            },
            None => {},
        }
        match &self.network_security_type {
            Some(n) => {
                fields.push(("networkSecurityType".to_owned(), n.encode()));
            },
            None => {},
        }
        match &self.passphrase {
            Some(p) => {
                fields.push(("passphrase".to_owned(), p.encode()));
            },
            None => {},
        }
        match &self.hidden {
            Some(h) => {
                fields.push(("hidden".to_owned(), h.encode()));
            },
            None => {},
        }
        proof {
            assert(fields_view(*fields) =~= fields_view(*old(fields)) + wifi_entries(self@));
        }
    }
}

/// An editable field of any known kind, selected by its `fieldType` tag; a
/// field of unknown kind is kept verbatim.
#[derive(Debug, Clone, PartialEq, Eq)]
pub enum EditableFieldValue {
    String(EditableField<EditableFieldString>),
    ConcealedString(EditableField<EditableFieldConcealedString>),
    Boolean(EditableField<EditableFieldBoolean>),
    Date(EditableField<EditableFieldDate>),
    YearMonth(EditableField<EditableFieldYearMonth>),
    SubdivisionCode(EditableField<EditableFieldSubdivisionCode>),
    CountryCode(EditableField<EditableFieldCountryCode>),
    WifiNetworkSecurityType(EditableField<EditableFieldWifiNetworkSecurityType>),
    /// A field whose kind this implementation does not know, kept verbatim.
    Unknown(Json),
}

/// The model of an editable field of any kind.
pub enum EditableFieldValueV {
    String(FieldV<Seq<char>>),
    ConcealedString(FieldV<Seq<char>>),
    Boolean(FieldV<bool>),
    Date(FieldV<Date>),
    YearMonth(FieldV<EditableFieldYearMonth>),
    SubdivisionCode(FieldV<Seq<char>>),
    CountryCode(FieldV<Seq<char>>),
    WifiNetworkSecurityType(FieldV<WifiSecurityV>),
    Unknown(JsonV),
}

impl View for EditableFieldValue {
    type V = EditableFieldValueV;

    open spec fn view(&self) -> EditableFieldValueV {
        match self {
            EditableFieldValue::String(f) => EditableFieldValueV::String(f@),
            EditableFieldValue::ConcealedString(f) => EditableFieldValueV::ConcealedString(f@),
            EditableFieldValue::Boolean(f) => EditableFieldValueV::Boolean(f@),
            EditableFieldValue::Date(f) => EditableFieldValueV::Date(f@),
            EditableFieldValue::YearMonth(f) => EditableFieldValueV::YearMonth(f@),
            EditableFieldValue::SubdivisionCode(f) => EditableFieldValueV::SubdivisionCode(f@),
            EditableFieldValue::CountryCode(f) => EditableFieldValueV::CountryCode(f@),
            EditableFieldValue::WifiNetworkSecurityType(f) => EditableFieldValueV::WifiNetworkSecurityType(f@),
            EditableFieldValue::Unknown(j) => EditableFieldValueV::Unknown(j@),
        }
    }
}

impl DeepView for EditableFieldValue {
    type V = EditableFieldValueV;

    open spec fn deep_view(&self) -> EditableFieldValueV {
        self.view()
    }
}

/// What decoding an editable field of any kind yields: the `fieldType` tag
/// selects the kind, and an unknown tag preserves the object verbatim.
pub open spec fn field_value_decoded(j: JsonV) -> Result<EditableFieldValueV, DecodeError> {
    match j {
        JsonV::Obj(o) => match lookup(o, "fieldType"@) {
            Some(JsonV::Str(t)) => if t == "string"@ {
                match field_decoded::<EditableFieldString>(j) {
                    Ok(f) => Ok(EditableFieldValueV::String(f)),
                    Err(e) => Err(DecodeError::Field(e)),
                }
            } else if t == "concealed-string"@ {
                match field_decoded::<EditableFieldConcealedString>(j) {
                    Ok(f) => Ok(EditableFieldValueV::ConcealedString(f)),
                    Err(e) => Err(DecodeError::Field(e)),
                }
            } else if t == "boolean"@ {
                match field_decoded::<EditableFieldBoolean>(j) {
                    Ok(f) => Ok(EditableFieldValueV::Boolean(f)),
                    Err(e) => Err(DecodeError::Field(e)),
                }
            } else if t == "date"@ {
                match field_decoded::<EditableFieldDate>(j) {
                    Ok(f) => Ok(EditableFieldValueV::Date(f)),
                    Err(e) => Err(DecodeError::Field(e)),
                }
            } else if t == "year-month"@ {
                match field_decoded::<EditableFieldYearMonth>(j) {
                    Ok(f) => Ok(EditableFieldValueV::YearMonth(f)),
                    Err(e) => Err(DecodeError::Field(e)),
                }
            } else if t == "subdivision-code"@ {
                match field_decoded::<EditableFieldSubdivisionCode>(j) {
                    Ok(f) => Ok(EditableFieldValueV::SubdivisionCode(f)),
                    Err(e) => Err(DecodeError::Field(e)),
                }
            } else if t == "country-code"@ {
                match field_decoded::<EditableFieldCountryCode>(j) {
                    Ok(f) => Ok(EditableFieldValueV::CountryCode(f)),
                    Err(e) => Err(DecodeError::Field(e)),
                }
            } else if t == "wifi-network-security-type"@ {
                match field_decoded::<EditableFieldWifiNetworkSecurityType>(j) {
                    Ok(f) => Ok(EditableFieldValueV::WifiNetworkSecurityType(f)),
                    Err(e) => Err(DecodeError::Field(e)),
                }
            } else {
                Ok(EditableFieldValueV::Unknown(j))
            },
            Some(_) => Err(DecodeError::InvalidType),
            None => Err(DecodeError::MissingType),
        },
        _ => Err(DecodeError::NotAnObject),
    }
}

/// The field-of-any-kind element decoder as a function value.
pub open spec fn field_value_decoder() -> spec_fn(JsonV) -> Result<
    EditableFieldValueV,
    DecodeError,
> {
    |x: JsonV| field_value_decoded(x)
}

/// What encoding an editable field of any kind produces.
pub open spec fn field_value_encoded(v: EditableFieldValueV) -> JsonV {
    match v {
        EditableFieldValueV::String(f) => field_encoded::<EditableFieldString>(f),
        EditableFieldValueV::ConcealedString(f) => field_encoded::<EditableFieldConcealedString>(
            f,
        ),
        EditableFieldValueV::Boolean(f) => field_encoded::<EditableFieldBoolean>(f),
        EditableFieldValueV::Date(f) => field_encoded::<EditableFieldDate>(f),
        EditableFieldValueV::YearMonth(f) => field_encoded::<EditableFieldYearMonth>(f),
        EditableFieldValueV::SubdivisionCode(f) => field_encoded::<EditableFieldSubdivisionCode>(
            f,
        ),
        EditableFieldValueV::CountryCode(f) => field_encoded::<EditableFieldCountryCode>(f),
        EditableFieldValueV::WifiNetworkSecurityType(f) => field_encoded::<
            EditableFieldWifiNetworkSecurityType,
        >(f),
        EditableFieldValueV::Unknown(j) => j,
    }
}

impl EditableFieldValue {
    /// Decodes an editable field of any kind from a JSON value.
    pub fn decode(j: &Json) -> (r: Result<Self, DecodeError>)
        ensures
            match r {
                Ok(v) => field_value_decoded(j@) == Ok::<EditableFieldValueV, DecodeError>(v@),
                Err(e) => field_value_decoded(j@) == Err::<EditableFieldValueV, DecodeError>(e),
            },
    {
        let fields = match j {
            Json::Obj(fields) => fields,
            _ => {
                return Err(DecodeError::NotAnObject);
            },
        };
        let tag = match Json::obj_get(fields, "fieldType") {
            Some(Json::Str(s)) => s,
            Some(_) => {
                return Err(DecodeError::InvalidType);
            },
            None => {
                return Err(DecodeError::MissingType);
            },
        };
        if str_eq(tag.as_str(), "string") {
            match EditableField::<EditableFieldString>::decode(j) {
                Ok(f) => Ok(EditableFieldValue::String(f)),
                Err(e) => Err(DecodeError::Field(e)),
            }
        } else if str_eq(tag.as_str(), "concealed-string") {
            match EditableField::<EditableFieldConcealedString>::decode(j) {
                Ok(f) => Ok(EditableFieldValue::ConcealedString(f)),
                Err(e) => Err(DecodeError::Field(e)),
            }
        } else if str_eq(tag.as_str(), "boolean") {
            match EditableField::<EditableFieldBoolean>::decode(j) {
                Ok(f) => Ok(EditableFieldValue::Boolean(f)),
                Err(e) => Err(DecodeError::Field(e)),
            }
        } else if str_eq(tag.as_str(), "date") {
            match EditableField::<EditableFieldDate>::decode(j) {
                Ok(f) => Ok(EditableFieldValue::Date(f)),
                Err(e) => Err(DecodeError::Field(e)),
            }
        } else if str_eq(tag.as_str(), "year-month") {
            match EditableField::<EditableFieldYearMonth>::decode(j) {
                Ok(f) => Ok(EditableFieldValue::YearMonth(f)),
                Err(e) => Err(DecodeError::Field(e)),
            }
        } else if str_eq(tag.as_str(), "subdivision-code") {
            match EditableField::<EditableFieldSubdivisionCode>::decode(j) {
                Ok(f) => Ok(EditableFieldValue::SubdivisionCode(f)),
                Err(e) => Err(DecodeError::Field(e)),
            }
        } else if str_eq(tag.as_str(), "country-code") {
            match EditableField::<EditableFieldCountryCode>::decode(j) {
                Ok(f) => Ok(EditableFieldValue::CountryCode(f)),
                Err(e) => Err(DecodeError::Field(e)),
            }
        } else if str_eq(tag.as_str(), "wifi-network-security-type") {
            match EditableField::<EditableFieldWifiNetworkSecurityType>::decode(j) {
                Ok(f) => Ok(EditableFieldValue::WifiNetworkSecurityType(f)),
                Err(e) => Err(DecodeError::Field(e)),
            }
        } else {
            Ok(EditableFieldValue::Unknown(j.clone()))
        }
    }

    /// Encodes the editable field; a field of unknown kind is reproduced
    /// verbatim.
    pub fn encode(&self) -> (r: Json)
        ensures
            r@ == field_value_encoded(self@),
    {
        match self {
            EditableFieldValue::String(f) => f.encode(),
            EditableFieldValue::ConcealedString(f) => f.encode(),
            EditableFieldValue::Boolean(f) => f.encode(),
            EditableFieldValue::Date(f) => f.encode(),
            EditableFieldValue::YearMonth(f) => f.encode(),
            EditableFieldValue::SubdivisionCode(f) => f.encode(),
            EditableFieldValue::CountryCode(f) => f.encode(),
            EditableFieldValue::WifiNetworkSecurityType(f) => f.encode(),
            EditableFieldValue::Unknown(j) => j.clone(),
        }
    }
}

/// A section of miscellaneous user-defined fields.
#[derive(Debug, Clone, PartialEq, Eq)]
pub struct CustomFieldsCredential {
    /// A machine-generated opaque identifier for the section.
    pub id: Option<B64Url>,
    /// A human-palatable title describing the section.
    pub label: Option<String>,
    /// The fields under this section.
    pub fields: Vec<EditableFieldValue>,
    /// Additional provider information; omitted from the wire when empty.
    pub extensions: Vec<Extension>,
}

/// The model of a custom-fields credential.
pub struct CustomFieldsCredentialV {
    pub id: Option<Seq<u8>>,
    pub label: Option<Seq<char>>,
    pub fields: Seq<EditableFieldValueV>,
    pub extensions: Seq<ExtensionV>,
}

impl View for CustomFieldsCredential {
    type V = CustomFieldsCredentialV;

    open spec fn view(&self) -> CustomFieldsCredentialV {
        CustomFieldsCredentialV {
            id: match &self.id {
                Some(b) => Some(b@),
                None => None,
            },
            label: match &self.label {
                Some(l) => Some(l@),
                None => None,
            },
            fields: self.fields.deep_view(),
            extensions: self.extensions@.map_values(|e: Extension| e@),
        }
    }
}

/// The field list of an encoded custom-fields credential, without the
/// `type` tag. The extension list is present only when it is non-empty.
pub open spec fn custom_fields_entries(v: CustomFieldsCredentialV) -> Seq<(Seq<char>, JsonV)> {
    (match v.id {
        Some(b) => seq![("id"@, JsonV::Str(b64url_encoded(b)))],
        None => Seq::<(Seq<char>, JsonV)>::empty(),
    }) + (match v.label {
        Some(l) => seq![("label"@, JsonV::Str(l))],
        None => Seq::<(Seq<char>, JsonV)>::empty(),
    }) + seq![
        ("fields"@, JsonV::Arr(v.fields.map_values(|f: EditableFieldValueV| field_value_encoded(f)))),
    ] + (if v.extensions.len() == 0 {
        Seq::<(Seq<char>, JsonV)>::empty()
    } else {
        seq![
            ("extensions"@, JsonV::Arr(v.extensions.map_values(|e: ExtensionV| extension_encoded(e)))),
        ]
    })
}

/// What decoding a custom-fields credential from an object's field list
/// yields.
pub open spec fn custom_fields_decoded(o: Seq<(Seq<char>, JsonV)>) -> Result<
    CustomFieldsCredentialV,
    DecodeError,
> {
    let id = match lookup(o, "id"@) {
        Some(JsonV::Str(s)) => match b64url_parse(s) {
            Some(b) => Ok(Some(b)),
            None => Err(DecodeError::InvalidMember),
        },
        Some(_) => Err(DecodeError::InvalidMember),
        None => Ok(None),
    };
    match id {
        Ok(id) => {
            let label = match lookup(o, "label"@) {
                Some(JsonV::Str(l)) => Ok(Some(l)),
                Some(_) => Err(DecodeError::InvalidMember),
                None => Ok(None),
            };
            match label {
                Ok(label) => match lookup(o, "fields"@) {
                    Some(JsonV::Arr(fjs)) => match arr_decoded(field_value_decoder(), fjs) {
                        Ok(fields) => match lookup(o, "extensions"@) {
                            Some(JsonV::Arr(ejs)) => Ok(
                                CustomFieldsCredentialV {
                                    id,
                                    label,
                                    fields,
                                    extensions: ejs.map_values(
                                        |x: JsonV| extension_decoded(x),
                                    ),
                                },
                            ),
                            Some(_) => Err(DecodeError::InvalidMember),
                            None => Ok(
                                CustomFieldsCredentialV {
                                    id,
                                    label,
                                    fields,
                                    extensions: Seq::empty(),
                                },
                            ),
                        },
                        Err(e) => Err(e),
                    },
                    Some(_) => Err(DecodeError::InvalidMember),
                    None => Err(DecodeError::MissingMember),
                },
                Err(e) => Err(e),
            }
        },
        Err(e) => Err(e),
    }
}

impl CustomFieldsCredential {
    /// Decodes a custom-fields credential from an object's field list.
    #[verifier::loop_isolation(false)]
    pub fn decode_fields(fields: &Vec<(String, Json)>) -> (r: Result<Self, DecodeError>)
        ensures
            match r {
                Ok(v) => custom_fields_decoded(fields_view(*fields)) == Ok::<
                    CustomFieldsCredentialV,
                    DecodeError,
                >(v@),
                Err(e) => custom_fields_decoded(fields_view(*fields)) == Err::<
                    CustomFieldsCredentialV,
                    DecodeError,
                >(e),
            },
    {
        let id = match Json::obj_get(fields, "id") {
            Some(Json::Str(s)) => match B64Url::decode(s.as_str()) {
                Ok(b) => Some(b),
                Err(_) => {
                    return Err(DecodeError::InvalidMember);
                },
            },
            Some(_) => {
                return Err(DecodeError::InvalidMember);
            },
            None => None,
        };
        let label = match Json::obj_get(fields, "label") {
            Some(Json::Str(s)) => Some(s.clone()),
            Some(_) => {
                return Err(DecodeError::InvalidMember);
            },
            None => None,
        };
        let field_items = match Json::obj_get(fields, "fields") {
            Some(Json::Arr(items)) => items,
            Some(_) => {
                return Err(DecodeError::InvalidMember);
            },
            None => {
                return Err(DecodeError::MissingMember);
            },
        };
        let mut out_fields: Vec<EditableFieldValue> = Vec::new();
        let mut i: usize = 0;
        let ghost fjs = items_view(*field_items);
        while i < field_items.len()
            invariant
                fjs == items_view(*field_items),
                i <= field_items@.len(),
                out_fields.deep_view().len() == i as int,
                forall|k: int|
                    0 <= k < i ==> field_value_decoded(#[trigger] fjs[k]) == Ok::<
                        EditableFieldValueV,
                        DecodeError,
                    >(out_fields.deep_view()[k]),
            decreases field_items@.len() - i,
        {
            proof {
                assert(fjs[i as int] == field_items@[i as int]@);
            }
            match EditableFieldValue::decode(&field_items[i]) {
                Ok(f) => {
                    out_fields.push(f);
                    proof {
                        assert(out_fields.deep_view()[i as int] == f@);
                    }
                },
                Err(e) => {
                    proof {
                        lemma_arr_decoded_err(field_value_decoder(), fjs, i as int, e);
                    }
                    return Err(e);
                },
            }
            i += 1;
        }
        proof {
            lemma_arr_decoded_ok(field_value_decoder(), fjs, out_fields.deep_view());
        }
        let mut extensions: Vec<Extension> = Vec::new();
        match Json::obj_get(fields, "extensions") {
            Some(Json::Arr(items)) => {
                let ghost ejs = items_view(*items);
                let mut i: usize = 0;
                while i < items.len()
                    invariant
                        ejs == items_view(*items),
                        i <= items@.len(),
                        extensions@.len() == i,
                        forall|k: int|
                            0 <= k < i ==> (#[trigger] extensions@[k])@ == extension_decoded(
                                ejs[k],
                            ),
                    decreases items@.len() - i,
                {
                    proof {
                        assert(ejs[i as int] == items@[i as int]@);
                    }
                    let e = Extension::decode(items[i].clone());
                    extensions.push(e);
                    i += 1;
                }
                proof {
                    assert(extensions@.map_values(|e: Extension| e@) =~= ejs.map_values(
                        |x: JsonV| extension_decoded(x),
                    ));
                }
            },
            Some(_) => {
                return Err(DecodeError::InvalidMember);
            },
            None => {
                proof {
                    assert(extensions@.map_values(|e: Extension| e@) =~= Seq::<
                        ExtensionV,
                    >::empty());
                }
            },
        }
        Ok(CustomFieldsCredential { id, label, fields: out_fields, extensions })
    }

    /// Appends the custom-fields credential's members to an object's field
    /// list; the extension list is omitted when empty.
    #[verifier::loop_isolation(false)]
    pub fn push_entries(&self, fields: &mut Vec<(String, Json)>)
        ensures
            fields_view(*final(fields)) == fields_view(*old(fields)) + custom_fields_entries(
                self@,
            ),
    {
        match &self.id {
            Some(b) => {
                fields.push(("id".to_owned(), Json::Str(b.to_string())));
            },
            None => {},
        }
        match &self.label {
            Some(l) => {
                fields.push(("label".to_owned(), Json::Str(l.clone())));
            },
            None => {},
        }
        let mut field_items: Vec<Json> = Vec::new();
        let mut i: usize = 0;
        while i < self.fields.len()
            invariant
                i <= self.fields@.len(),
                field_items@.len() == i,
                forall|k: int|
                    0 <= k < i ==> (#[trigger] field_items@[k])@ == field_value_encoded(
                        self.fields.deep_view()[k],
                    ),
            decreases self.fields@.len() - i,
        {
            field_items.push(self.fields[i].encode());
            i += 1;
        }
        let ghost fpos = fields_view(*fields).len() as int;
        fields.push(("fields".to_owned(), Json::Arr(field_items)));
        proof {
            assert(items_view(fields@[fpos].1->Arr_0) =~= self@.fields.map_values(
                |f: EditableFieldValueV| field_value_encoded(f),
            ));
        }
        if self.extensions.len() > 0 {
            let mut ext_items: Vec<Json> = Vec::new();
            let mut i: usize = 0;
            while i < self.extensions.len()
                invariant
                    i <= self.extensions@.len(),
                    ext_items@.len() == i,
                    forall|k: int|
                        0 <= k < i ==> (#[trigger] ext_items@[k])@ == extension_encoded(
                            self.extensions@[k]@,
                        ),
                decreases self.extensions@.len() - i,
            {
                ext_items.push(self.extensions[i].encode());
                i += 1;
            }
            let ghost epos = fields_view(*fields).len() as int;
            fields.push(("extensions".to_owned(), Json::Arr(ext_items)));
            proof {
                assert(items_view(fields@[epos].1->Arr_0) =~= self@.extensions.map_values(
                    |e: ExtensionV| extension_encoded(e),
                ));
            }
        }
        proof {
            assert(fields_view(*fields) =~= fields_view(*old(fields)) + custom_fields_entries(
                self@,
            ));
        }
    }
}

/// A credential, discriminated on the wire by its `type` member. Unknown
/// types never fail to decode: the tag and every field are preserved.
#[derive(Debug, Clone, PartialEq, Eq)]
pub enum Credential {
    BasicAuth(Box<BasicAuthCredential>),
    CustomFields(Box<CustomFieldsCredential>),
    File(Box<FileCredential>),
    GeneratedPassword(Box<GeneratedPasswordCredential>),
    ItemReference(Box<ItemReferenceCredential>),
    Note(Box<NoteCredential>),
    Passkey(Box<PasskeyCredential>),
    Totp(Box<TotpCredential>),
    Wifi(Box<WifiCredential>),
    /// A credential of a kind this implementation does not know: the tag
    /// and the entire original field content, kept verbatim.
    Unknown { ty: String, content: Vec<(String, Json)> },
}

/// The model of a credential.
pub enum CredentialV {
    BasicAuth(BasicAuthCredentialV),
    CustomFields(CustomFieldsCredentialV),
    File(FileCredentialV),
    GeneratedPassword(GeneratedPasswordCredentialV),
    ItemReference(ItemReferenceCredentialV),
    Note(NoteCredentialV),
    Passkey(PasskeyCredentialV),
    Totp(TotpCredentialV),
    Wifi(WifiCredentialV),
    Unknown { ty: Seq<char>, content: Seq<(Seq<char>, JsonV)> },
}

impl View for Credential {
    type V = CredentialV;

    open spec fn view(&self) -> CredentialV {
        match self {
            Credential::BasicAuth(v) => CredentialV::BasicAuth((**v)@),
            Credential::CustomFields(v) => CredentialV::CustomFields((**v)@),
            Credential::File(v) => CredentialV::File((**v)@),
            Credential::GeneratedPassword(v) => CredentialV::GeneratedPassword((**v)@),
            Credential::ItemReference(v) => CredentialV::ItemReference((**v)@),
            Credential::Note(v) => CredentialV::Note((**v)@),
            Credential::Passkey(v) => CredentialV::Passkey((**v)@),
            Credential::Totp(v) => CredentialV::Totp((**v)@),
            Credential::Wifi(v) => CredentialV::Wifi((**v)@),
            Credential::Unknown { ty, content } => CredentialV::Unknown {
                ty: ty@,
                content: fields_view(*content),
            },
        }
    }
}

impl DeepView for Credential {
    type V = CredentialV;

    open spec fn deep_view(&self) -> CredentialV {
        self.view()
    }
}

/// Whether a wire tag names a credential kind this implementation decodes
/// structurally.
pub open spec fn is_known_credential_tag(t: Seq<char>) -> bool {
    t == "basic-auth"@ || t == "custom-fields"@ || t == "file"@ || t == "generated-password"@ || t
        == "item-reference"@ || t == "note"@ || t == "passkey"@ || t == "totp"@ || t == "wifi"@
}

/// An object's field list without its `type` entries.
pub open spec fn content_of(o: Seq<(Seq<char>, JsonV)>) -> Seq<(Seq<char>, JsonV)>
    decreases o.len(),
{
    if o.len() == 0 {
        Seq::empty()
    } else {
        let rest = content_of(o.drop_last());
        if o.last().0 == "type"@ {
            rest
        } else {
            rest.push(o.last())
        }
    }
}

/// How many entries of an object's field list carry a key.
pub open spec fn key_count(o: Seq<(Seq<char>, JsonV)>, k: Seq<char>) -> nat
    decreases o.len(),
{
    if o.len() == 0 {
        0
    } else {
        key_count(o.drop_last(), k) + (if o.last().0 == k {
            1nat
        } else {
            0nat
        })
    }
}

/// What decoding a credential yields: a known tag selects its payload
/// shape, whose structural errors are hard errors; an unknown tag captures
/// the whole object.
pub open spec fn credential_decoded(j: JsonV) -> Result<CredentialV, DecodeError> {
    match j {
        JsonV::Obj(o) => match lookup(o, "type"@) {
            Some(JsonV::Str(t)) => if t == "basic-auth"@ {
                match basic_auth_decoded(o) {
                    Ok(v) => Ok(CredentialV::BasicAuth(v)),
                    Err(e) => Err(e),
                }
            } else if t == "custom-fields"@ {
                match custom_fields_decoded(o) {
                    Ok(v) => Ok(CredentialV::CustomFields(v)),
                    Err(e) => Err(e),
                }
            } else if t == "file"@ {
                match file_decoded(o) {
                    Ok(v) => Ok(CredentialV::File(v)),
                    Err(e) => Err(e),
                }
            } else if t == "generated-password"@ {
                match generated_password_decoded(o) {
                    Ok(v) => Ok(CredentialV::GeneratedPassword(v)),
                    Err(e) => Err(e),
                }
            } else if t == "item-reference"@ {
                match item_reference_decoded(o) {
                    Ok(v) => Ok(CredentialV::ItemReference(v)),
                    Err(e) => Err(e),
                }
            } else if t == "note"@ {
                match note_decoded(o) {
                    Ok(v) => Ok(CredentialV::Note(v)),
                    Err(e) => Err(e),
                }
            } else if t == "passkey"@ {
                match passkey_decoded(o) {
                    Ok(v) => Ok(CredentialV::Passkey(v)),
                    Err(e) => Err(e),
                }
            } else if t == "totp"@ {
                match totp_decoded(o) {
                    Ok(v) => Ok(CredentialV::Totp(v)),
                    Err(e) => Err(e),
                }
            } else if t == "wifi"@ {
                match wifi_decoded(o) {
                    Ok(v) => Ok(CredentialV::Wifi(v)),
                    Err(e) => Err(e),
                }
            } else {
                Ok(CredentialV::Unknown { ty: t, content: content_of(o) })
            },
            Some(_) => Err(DecodeError::InvalidType),
            None => Err(DecodeError::MissingType),
        },
        _ => Err(DecodeError::NotAnObject),
    }
}

/// The credential element decoder as a function value.
pub open spec fn credential_decoder() -> spec_fn(JsonV) -> Result<CredentialV, DecodeError> {
    |x: JsonV| credential_decoded(x)
}

/// The field list of an encoded credential: the `type` tag first, then the
/// payload members; an unknown credential reproduces its captured content.
pub open spec fn credential_entries(c: CredentialV) -> Seq<(Seq<char>, JsonV)> {
    match c {
        CredentialV::BasicAuth(v) => seq![("type"@, JsonV::Str("basic-auth"@))]
            + basic_auth_entries(v),
        CredentialV::CustomFields(v) => seq![("type"@, JsonV::Str("custom-fields"@))]
            + custom_fields_entries(v),
        CredentialV::File(v) => seq![("type"@, JsonV::Str("file"@))] + file_entries(v),
        CredentialV::GeneratedPassword(v) => seq![("type"@, JsonV::Str("generated-password"@))]
            + generated_password_entries(v),
        CredentialV::ItemReference(v) => seq![("type"@, JsonV::Str("item-reference"@))]
            + item_reference_entries(v),
        CredentialV::Note(v) => seq![("type"@, JsonV::Str("note"@))] + note_entries(v),
        CredentialV::Passkey(v) => seq![("type"@, JsonV::Str("passkey"@))] + passkey_entries(v),
        CredentialV::Totp(v) => seq![("type"@, JsonV::Str("totp"@))] + totp_entries(v),
        CredentialV::Wifi(v) => seq![("type"@, JsonV::Str("wifi"@))] + wifi_entries(v),
        CredentialV::Unknown { ty, content } => seq![("type"@, JsonV::Str(ty))] + content,
    }
}

/// What encoding a credential produces.
pub open spec fn credential_encoded(c: CredentialV) -> JsonV {
    JsonV::Obj(credential_entries(c))
}

/// A credential can be carried when every size in it fits the signed
/// 64-bit wire integer.
pub open spec fn credential_wf(c: CredentialV) -> bool {
    match c {
        CredentialV::File(v) => file_wf(v),
        CredentialV::Passkey(v) => passkey_wf(v),
        _ => true,
    }
}

impl Credential {
    /// Decodes a credential from a JSON value. Decoding fails only on a
    /// missing or non-string `type`, or on a structurally invalid payload
    /// of a known kind; an unknown kind is captured whole.
    #[verifier::loop_isolation(false)]
    #[verifier::rlimit(60)]
    pub fn decode(j: Json) -> (r: Result<Self, DecodeError>)
        ensures
            match r {
                Ok(c) => credential_decoded(j@) == Ok::<CredentialV, DecodeError>(c@)
                    && credential_wf(c@),
                Err(e) => credential_decoded(j@) == Err::<CredentialV, DecodeError>(e),
            },
    {
        let fields = match j {
            Json::Obj(fields) => fields,
            _ => {
                return Err(DecodeError::NotAnObject);
            },
        };
        let ty: String = match Json::obj_get(&fields, "type") {
            Some(Json::Str(s)) => s.clone(),
            Some(_) => {
                return Err(DecodeError::InvalidType);
            },
            None => {
                return Err(DecodeError::MissingType);
            },
        };
        if str_eq(ty.as_str(), "basic-auth") {
            match BasicAuthCredential::decode_fields(&fields) {
                Ok(v) => Ok(Credential::BasicAuth(Box::new(v))),
                Err(e) => Err(e),
            }
        } else if str_eq(ty.as_str(), "custom-fields") {
            match CustomFieldsCredential::decode_fields(&fields) {
                Ok(v) => Ok(Credential::CustomFields(Box::new(v))),
                Err(e) => Err(e),
            }
        } else if str_eq(ty.as_str(), "file") {
            match FileCredential::decode_fields(&fields) {
                Ok(v) => Ok(Credential::File(Box::new(v))),
                Err(e) => Err(e),
            }
        } else if str_eq(ty.as_str(), "generated-password") {
            match GeneratedPasswordCredential::decode_fields(&fields) {
                Ok(v) => Ok(Credential::GeneratedPassword(Box::new(v))),
                Err(e) => Err(e),
            }
        } else if str_eq(ty.as_str(), "item-reference") {
            match ItemReferenceCredential::decode_fields(&fields) {
                Ok(v) => Ok(Credential::ItemReference(Box::new(v))),
                Err(e) => Err(e),
            }
        } else if str_eq(ty.as_str(), "note") {
            match NoteCredential::decode_fields(&fields) {
                Ok(v) => Ok(Credential::Note(Box::new(v))),
                Err(e) => Err(e),
            }
        } else if str_eq(ty.as_str(), "passkey") {
            match PasskeyCredential::decode_fields(&fields) {
                Ok(v) => Ok(Credential::Passkey(Box::new(v))),
                Err(e) => Err(e),
            }
        } else if str_eq(ty.as_str(), "totp") {
            match TotpCredential::decode_fields(&fields) {
                Ok(v) => Ok(Credential::Totp(Box::new(v))),
                Err(e) => Err(e),
            }
        } else if str_eq(ty.as_str(), "wifi") {
            match WifiCredential::decode_fields(&fields) {
                Ok(v) => Ok(Credential::Wifi(Box::new(v))),
                Err(e) => Err(e),
            }
        } else {
            Ok(Self::capture_unknown(ty, fields))
        }
    }

    /// Captures an object of unknown credential kind: the tag together
    /// with every field except the discriminator itself.
    #[verifier::loop_isolation(false)]
    fn capture_unknown(ty: String, fields: Vec<(String, Json)>) -> (r: Credential)
        ensures
            r@ == (CredentialV::Unknown { ty: ty@, content: content_of(fields_view(fields)) }),
    {
        let ghost fv = fields_view(fields);
        let mut rest = fields;
        let mut content: Vec<(String, Json)> = Vec::new();
        let ghost mut i: int = 0;
        while rest.len() > 0
            invariant
                0 <= i <= fv.len(),
                fields_view(rest) == fv.skip(i),
                fields_view(content) == content_of(fv.take(i)),
            decreases rest@.len(),
        {
            proof {
                assert(fv.take(i + 1).drop_last() =~= fv.take(i));
                assert(fv.take(i + 1).last() == fv[i]);
                assert(fields_view(rest)[0] == fv[i]);
            }
            let ghost pre = fields_view(rest);
            let ghost prev = rest@;
            let (k, v) = rest.remove(0);
            if !str_eq(k.as_str(), "type") {
                content.push((k, v));
            }
            proof {
                assert(rest@ =~= prev.drop_first());
                assert forall|m: int| 0 <= m < rest@.len() implies fields_view(rest)[m]
                    == fv.skip(i + 1)[m] by {
                    assert(fields_view(rest)[m] == (rest@[m].0@, rest@[m].1@));
                    assert(rest@[m] == prev[m + 1]);
                    assert(pre[m + 1] == (prev[m + 1].0@, prev[m + 1].1@));
                    assert(pre[m + 1] == fv.skip(i)[m + 1]);
                    assert(fv.skip(i)[m + 1] == fv[i + 1 + m]);
                    assert(fv.skip(i + 1)[m] == fv[i + 1 + m]);
                }
                assert(fields_view(rest) =~= fv.skip(i + 1));
                assert(fields_view(content) =~~= content_of(fv.take(i + 1)));
                i = i + 1;
            }
        }
        proof {
            assert(fv.take(i) =~= fv);
        }
        Credential::Unknown { ty, content }
    }

    /// Encodes the credential: the derived `type` tag first, then the
    /// payload; an unknown credential reproduces its captured tag and
    /// content.
    #[verifier::loop_isolation(false)]
    pub fn encode(&self) -> (r: Json)
        requires
            credential_wf(self@),
        ensures
            r@ == credential_encoded(self@),
    {
        let mut fields: Vec<(String, Json)> = Vec::new();
        match self {
            Credential::BasicAuth(v) => {
                fields.push(("type".to_owned(), Json::Str("basic-auth".to_owned())));
                v.push_entries(&mut fields);
            },
            Credential::CustomFields(v) => {
                fields.push(("type".to_owned(), Json::Str("custom-fields".to_owned())));
                v.push_entries(&mut fields);
            },
            Credential::File(v) => {
                fields.push(("type".to_owned(), Json::Str("file".to_owned())));
                v.push_entries(&mut fields);
            },
            Credential::GeneratedPassword(v) => {
                fields.push(("type".to_owned(), Json::Str("generated-password".to_owned())));
                v.push_entries(&mut fields);
            },
            Credential::ItemReference(v) => {
                fields.push(("type".to_owned(), Json::Str("item-reference".to_owned())));
                v.push_entries(&mut fields);
            },
            Credential::Note(v) => {
                fields.push(("type".to_owned(), Json::Str("note".to_owned())));
                v.push_entries(&mut fields);
            },
            Credential::Passkey(v) => {
                fields.push(("type".to_owned(), Json::Str("passkey".to_owned())));
                v.push_entries(&mut fields);
            },
            Credential::Totp(v) => {
                fields.push(("type".to_owned(), Json::Str("totp".to_owned())));
                v.push_entries(&mut fields);
            },
            Credential::Wifi(v) => {
                fields.push(("type".to_owned(), Json::Str("wifi".to_owned())));
                v.push_entries(&mut fields);
            },
            Credential::Unknown { ty, content } => {
                fields.push(("type".to_owned(), Json::Str(ty.clone())));
                let mut i: usize = 0;
                while i < content.len()
                    invariant
                        i <= content@.len(),
                        fields@.len() == i + 1,
                        fields_view(fields) == seq![("type"@, JsonV::Str(ty@))] + fields_view(
                            *content,
                        ).take(i as int),
                    decreases content@.len() - i,
                {
                    let ghost pre = fields_view(fields);
                    fields.push((content[i].0.clone(), content[i].1.clone()));
                    proof {
                        let target = seq![("type"@, JsonV::Str(ty@))] + fields_view(
                            *content,
                        ).take(i + 1);
                        assert forall|m: int| 0 <= m < fields@.len() implies fields_view(fields)[m]
                            == target[m] by {
                            assert(fields_view(fields)[m] == (fields@[m].0@, fields@[m].1@));
                            if m < pre.len() {
                                assert(fields@[m] == fields@.drop_last()[m]);
                                assert(pre[m] == (fields@.drop_last()[m].0@, fields@.drop_last()[m].1@));
                            } else {
                                assert(fields@[m] == fields@.last());
                                assert(fields_view(*content)[i as int] == (content@[i as int].0@,
                                content@[i as int].1@));
                            }
                        }
                        assert(fields_view(fields) =~= target);
                    }
                    i += 1;
                }
                proof {
                    assert(fields_view(*content).take(content@.len() as int) =~= fields_view(
                        *content,
                    ));
                }
            },
        }
        proof {
            assert(fields_view(fields) =~= credential_entries(self@));
        }
        Json::Obj(fields)
    }
}

proof fn lemma_lookup_push(o: Seq<(Seq<char>, JsonV)>, e: (Seq<char>, JsonV), k: Seq<char>)
    ensures
        lookup(o.push(e), k) == (if lookup(o, k) is Some {
            lookup(o, k)
        } else if e.0 == k {
            Some(e.1)
        } else {
            None
        }),
    decreases o.len(),
{
    if o.len() == 0 {
        assert(o.push(e)[0] == e);
        assert(o.push(e).drop_first() =~= Seq::<(Seq<char>, JsonV)>::empty());
        assert(lookup(Seq::<(Seq<char>, JsonV)>::empty(), k) is None);
        assert(o =~= Seq::<(Seq<char>, JsonV)>::empty());
        assert(lookup(o.push(e), k) == (if e.0 == k {
            Some(e.1)
        } else {
            lookup(Seq::<(Seq<char>, JsonV)>::empty(), k)
        }));
    } else {
        lemma_lookup_push(o.drop_first(), e, k);
        assert(o.push(e)[0] == o[0]);
        assert(o.push(e).drop_first() =~= o.drop_first().push(e));
        assert(lookup(o.push(e), k) == (if o[0].0 == k {
            Some(o[0].1)
        } else {
            lookup(o.drop_first().push(e), k)
        }));
        assert(lookup(o, k) == (if o[0].0 == k {
            Some(o[0].1)
        } else {
            lookup(o.drop_first(), k)
        }));
    }
}

/// Re-encoding a decoded unknown credential reproduces an object with the
/// same key and value content as the original, the discriminator included:
/// nothing is lost on a credential kind this implementation does not know.
pub proof fn lemma_unknown_credential_round_trip(o: Seq<(Seq<char>, JsonV)>, t: Seq<char>)
    requires
        lookup(o, "type"@) == Some(JsonV::Str(t)),
        !is_known_credential_tag(t),
        key_count(o, "type"@) == 1,
    ensures
        credential_decoded(JsonV::Obj(o)) == Ok::<CredentialV, DecodeError>(
            CredentialV::Unknown { ty: t, content: content_of(o) },
        ),
        credential_entries(
            CredentialV::Unknown { ty: t, content: content_of(o) },
        ).to_multiset() == o.to_multiset(),
{
    lemma_content_multiset(o, t);
    let entries = seq![("type"@, JsonV::Str(t))] + content_of(o);
    assert(entries =~= content_of(o).insert(0, ("type"@, JsonV::Str(t))));
    broadcast use vstd::seq_lib::group_seq_properties;

    assert(entries.to_multiset() =~= content_of(o).to_multiset().insert(
        ("type"@, JsonV::Str(t)),
    )) by {
        content_of(o).to_multiset_ensures();
        entries.to_multiset_ensures();
        assert(entries.drop_last() =~= seq![(("type"@, JsonV::Str(t)))] + content_of(
            o,
        ).drop_last() || content_of(o).len() == 0);
        lemma_insert_multiset(content_of(o), ("type"@, JsonV::Str(t)));
    }
}

/// Inserting an element anywhere adds exactly it to the multiset.
proof fn lemma_insert_multiset(s: Seq<(Seq<char>, JsonV)>, e: (Seq<char>, JsonV))
    ensures
        (seq![e] + s).to_multiset() == s.to_multiset().insert(e),
    decreases s.len(),
{
    s.to_multiset_ensures();
    (seq![e] + s).to_multiset_ensures();
    if s.len() == 0 {
        assert(seq![e] + s =~= Seq::<(Seq<char>, JsonV)>::empty().push(e));
        Seq::<(Seq<char>, JsonV)>::empty().to_multiset_ensures();
        assert((seq![e] + s).to_multiset() =~= s.to_multiset().insert(e));
    } else {
        lemma_insert_multiset(s.drop_last(), e);
        s.drop_last().to_multiset_ensures();
        (seq![e] + s.drop_last()).to_multiset_ensures();
        assert(seq![e] + s =~= (seq![e] + s.drop_last()).push(s.last()));
        assert((seq![e] + s).to_multiset() =~= (seq![e] + s.drop_last()).to_multiset().insert(
            s.last(),
        ));
        assert(s =~= s.drop_last().push(s.last()));
        assert(s.to_multiset() =~= s.drop_last().to_multiset().insert(s.last()));
        assert((seq![e] + s).to_multiset() =~= s.to_multiset().insert(e)) by {
            assert((seq![e] + s.drop_last()).to_multiset() == s.drop_last().to_multiset().insert(
                e,
            ));
            assert(s.drop_last().to_multiset().insert(e).insert(s.last())
                =~= s.drop_last().to_multiset().insert(s.last()).insert(e));
        }
    }
}

/// With exactly one `type` entry, whose value is the tag, an object's
/// multiset is its content plus that one entry.
proof fn lemma_content_multiset(o: Seq<(Seq<char>, JsonV)>, t: Seq<char>)
    requires
        lookup(o, "type"@) == Some(JsonV::Str(t)),
        key_count(o, "type"@) == 1,
    ensures
        o.to_multiset() == content_of(o).to_multiset().insert(("type"@, JsonV::Str(t))),
    decreases o.len(),
{
    o.to_multiset_ensures();
    content_of(o).to_multiset_ensures();
    let k = "type"@;
    if o.len() > 0 {
        let last = o.last();
        let front = o.drop_last();
        front.to_multiset_ensures();
        content_of(front).to_multiset_ensures();
        assert(o =~= front.push(last));
        assert(o.to_multiset() =~= front.to_multiset().insert(last));
        lemma_lookup_push(front, last, k);
        if last.0 == k {
            assert(key_count(front, k) == 0);
            lemma_key_count_zero(front, k);
            assert(lookup(front, k) is None);
            assert(last == (k, JsonV::Str(t)));
            assert(content_of(o) == content_of(front));
            lemma_content_no_type(front, k);
            assert(content_of(front) =~= front);
        } else {
            assert(key_count(front, k) == 1);
            assert(lookup(front, k) == Some(JsonV::Str(t)));
            lemma_content_multiset(front, t);
            assert(content_of(o) =~= content_of(front).push(last));
            assert(content_of(o).to_multiset() =~= content_of(front).to_multiset().insert(last));
            assert(o.to_multiset() =~= content_of(o).to_multiset().insert(("type"@, JsonV::Str(t))))
                by {
                assert(front.to_multiset() == content_of(front).to_multiset().insert(
                    (k, JsonV::Str(t)),
                ));
                assert(content_of(front).to_multiset().insert((k, JsonV::Str(t))).insert(last)
                    =~= content_of(front).to_multiset().insert(last).insert((k, JsonV::Str(t))));
            }
        }
    }
}

/// Without any entry under a key, looking the key up finds nothing.
proof fn lemma_key_count_zero(o: Seq<(Seq<char>, JsonV)>, k: Seq<char>)
    requires
        key_count(o, k) == 0,
    ensures
        lookup(o, k) is None,
    decreases o.len(),
{
    if o.len() > 0 {
        lemma_key_count_zero(o.drop_last(), k);
        lemma_lookup_push(o.drop_last(), o.last(), k);
        assert(o =~= o.drop_last().push(o.last()));
    }
}

/// Without any `type` entry, an object's content is the object itself.
proof fn lemma_content_no_type(o: Seq<(Seq<char>, JsonV)>, k: Seq<char>)
    requires
        key_count(o, "type"@) == 0,
    ensures
        content_of(o) == o,
    decreases o.len(),
{
    if o.len() > 0 {
        lemma_content_no_type(o.drop_last(), k);
        assert(content_of(o) =~= o.drop_last().push(o.last()));
        assert(o =~= o.drop_last().push(o.last()));
    }
}

} // verus!
