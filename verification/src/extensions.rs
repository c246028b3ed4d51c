//! Extensions: side information attached to accounts, collections, items or
//! fields, with the sharing extension as the one standardized variant and a
//! raw JSON fallback for everything else.

use vstd::prelude::*;
use crate::b64url::{b64url_encoded, b64url_parse, B64Url};
use crate::error::DecodeError;
use crate::json::{
    arr_decoded, fields_view, items_view, lemma_arr_decoded_err, lemma_arr_decoded_ok, lookup,
    Json, JsonV,
};
use crate::text::str_eq;

verus! {

/// The kind of accessor a [`SharingAccessor`] describes.
#[derive(Debug, Clone, PartialEq, Eq)]
pub enum SharingAccessorType {
    /// A specific user account.
    User,
    /// A group of users.
    Group,
    /// An accessor kind this implementation does not know; kept for future
    /// compatibility. Importers ignore such accessors.
    Unknown(String),
}

/// The model of a sharing accessor kind.
pub enum SharingAccessorTypeV {
    User,
    Group,
    Unknown(Seq<char>),
}

impl View for SharingAccessorType {
    type V = SharingAccessorTypeV;

    open spec fn view(&self) -> SharingAccessorTypeV {
        match self {
            SharingAccessorType::User => SharingAccessorTypeV::User,
            SharingAccessorType::Group => SharingAccessorTypeV::Group,
            SharingAccessorType::Unknown(s) => SharingAccessorTypeV::Unknown(s@),
        }
    }
}

impl DeepView for SharingAccessorType {
    type V = SharingAccessorTypeV;

    open spec fn deep_view(&self) -> SharingAccessorTypeV {
        self.view()
    }
}

/// The level of access an accessor is given.
#[derive(Debug, Clone, PartialEq, Eq)]
pub enum SharingAccessorPermission {
    /// Read the entity, excluding its secrets.
    Read,
    /// Read the entity, including its secrets.
    ReadSecret,
    /// Update the entity.
    Update,
    /// Create sub-entities.
    Create,
    /// Delete sub-entities.
    Delete,
    /// Share sub-entities with others.
    Share,
    /// Manage the entity: edit its attributes, share it, and so on.
    Manage,
    /// A permission this implementation does not know; kept for future
    /// compatibility. Importers ignore such entries.
    Unknown(String),
}

/// The model of a sharing permission.
pub enum SharingAccessorPermissionV {
    Read,
    ReadSecret,
    Update,
    Create,
    Delete,
    Share,
    Manage,
    Unknown(Seq<char>),
}

impl View for SharingAccessorPermission {
    type V = SharingAccessorPermissionV;

    open spec fn view(&self) -> SharingAccessorPermissionV {
        match self {
            SharingAccessorPermission::Read => SharingAccessorPermissionV::Read,
            SharingAccessorPermission::ReadSecret => SharingAccessorPermissionV::ReadSecret,
            SharingAccessorPermission::Update => SharingAccessorPermissionV::Update,
            SharingAccessorPermission::Create => SharingAccessorPermissionV::Create,
            SharingAccessorPermission::Delete => SharingAccessorPermissionV::Delete,
            SharingAccessorPermission::Share => SharingAccessorPermissionV::Share,
            SharingAccessorPermission::Manage => SharingAccessorPermissionV::Manage,
            SharingAccessorPermission::Unknown(s) => SharingAccessorPermissionV::Unknown(s@),
        }
    }
}

impl DeepView for SharingAccessorPermission {
    type V = SharingAccessorPermissionV;

    open spec fn deep_view(&self) -> SharingAccessorPermissionV {
        self.view()
    }
}

/// A user or group and its access permissions on a shared entity.
#[derive(Debug, Clone, PartialEq, Eq)]
pub struct SharingAccessor {
    /// The kind of accessor these permissions are for.
    pub ty: SharingAccessorType,
    /// The account that was given access, by its identifier.
    pub account_id: B64Url,
    /// The accessor's account name, or the group's name.
    pub name: String,
    /// The permissions the accessor holds on the shared entity.
    pub permissions: Vec<SharingAccessorPermission>,
}

/// The model of a sharing accessor.
pub struct SharingAccessorV {
    pub ty: SharingAccessorTypeV,
    pub account_id: Seq<u8>,
    pub name: Seq<char>,
    pub permissions: Seq<SharingAccessorPermissionV>,
}

impl View for SharingAccessor {
    type V = SharingAccessorV;

    open spec fn view(&self) -> SharingAccessorV {
        SharingAccessorV {
            ty: self.ty@,
            account_id: self.account_id@,
            name: self.name@,
            permissions: self.permissions.deep_view(),
        }
    }
}

impl DeepView for SharingAccessor {
    type V = SharingAccessorV;

    open spec fn deep_view(&self) -> SharingAccessorV {
        self.view()
    }
}

/// Entity sharing between user accounts: the accessors of a shared
/// collection or item, with their permissions.
#[derive(Debug, Clone, PartialEq, Eq)]
pub struct SharedExtension {
    /// The users and groups with access to the entity.
    pub accessors: Vec<SharingAccessor>,
}

/// The model of a sharing extension.
pub struct SharedExtensionV {
    pub accessors: Seq<SharingAccessorV>,
}

impl View for SharedExtension {
    type V = SharedExtensionV;

    open spec fn view(&self) -> SharedExtensionV {
        SharedExtensionV { accessors: self.accessors.deep_view() }
    }
}

/// Side information attached to an account, collection, item or field.
///
/// Decoding never fails: a payload that is not a well-formed known extension
/// is preserved verbatim in the `Unknown` arm, so re-encoding loses nothing.
#[derive(Debug, Clone, PartialEq, Eq)]
pub enum Extension {
    /// A sharing relationship on a collection or item.
    Shared(SharedExtension),
    /// An extension this implementation does not know, kept verbatim.
    Unknown(Json),
}

/// The model of an extension.
pub enum ExtensionV {
    Shared(SharedExtensionV),
    Unknown(JsonV),
}

impl View for Extension {
    type V = ExtensionV;

    open spec fn view(&self) -> ExtensionV {
        match self {
            Extension::Shared(se) => ExtensionV::Shared(se@),
            Extension::Unknown(j) => ExtensionV::Unknown(j@),
        }
    }
}

/// The wire name of an accessor kind.
pub open spec fn accessor_type_name(v: SharingAccessorTypeV) -> Seq<char> {
    match v {
        SharingAccessorTypeV::User => "user"@,
        SharingAccessorTypeV::Group => "group"@,
        SharingAccessorTypeV::Unknown(s) => s,
    }
}

/// The accessor kind a wire name denotes; an unknown name is kept.
pub open spec fn accessor_type_parsed(s: Seq<char>) -> SharingAccessorTypeV {
    if s == "user"@ {
        SharingAccessorTypeV::User
    } else if s == "group"@ {
        SharingAccessorTypeV::Group
    } else {
        SharingAccessorTypeV::Unknown(s)
    }
}

impl SharingAccessorType {
    /// The kind a wire name denotes.
    pub fn from_wire(s: &str) -> (r: Self)
        ensures
            r@ == accessor_type_parsed(s@),
    {
        if str_eq(s, "user") {
            SharingAccessorType::User
        } else if str_eq(s, "group") {
            SharingAccessorType::Group
        } else {
            SharingAccessorType::Unknown(s.to_owned())
        }
    }

    /// The kind's wire name.
    pub fn wire_name(&self) -> (r: String)
        ensures
            r@ == accessor_type_name(self@),
    {
        match self {
            SharingAccessorType::User => "user".to_owned(),
            SharingAccessorType::Group => "group".to_owned(),
            SharingAccessorType::Unknown(s) => s.clone(),
        }
    }
}

/// The wire name of a permission.
pub open spec fn permission_name(v: SharingAccessorPermissionV) -> Seq<char> {
    match v {
        SharingAccessorPermissionV::Read => "read"@,
        SharingAccessorPermissionV::ReadSecret => "readSecret"@,
        SharingAccessorPermissionV::Update => "update"@,
        SharingAccessorPermissionV::Create => "create"@,
        SharingAccessorPermissionV::Delete => "delete"@,
        SharingAccessorPermissionV::Share => "share"@,
        SharingAccessorPermissionV::Manage => "manage"@,
        SharingAccessorPermissionV::Unknown(s) => s,
    }
}

/// The permission a wire name denotes; an unknown name is kept.
pub open spec fn permission_parsed(s: Seq<char>) -> SharingAccessorPermissionV {
    if s == "read"@ {
        SharingAccessorPermissionV::Read
    } else if s == "readSecret"@ {
        SharingAccessorPermissionV::ReadSecret
    } else if s == "update"@ {
        SharingAccessorPermissionV::Update
    } else if s == "create"@ {
        SharingAccessorPermissionV::Create
    } else if s == "delete"@ {
        SharingAccessorPermissionV::Delete
    } else if s == "share"@ {
        SharingAccessorPermissionV::Share
    } else if s == "manage"@ {
        SharingAccessorPermissionV::Manage
    } else {
        SharingAccessorPermissionV::Unknown(s)
    }
}

impl SharingAccessorPermission {
    /// The permission a wire name denotes.
    pub fn from_wire(s: &str) -> (r: Self)
        ensures
            r@ == permission_parsed(s@),
    {
        if str_eq(s, "read") {
            SharingAccessorPermission::Read
        } else if str_eq(s, "readSecret") {
            SharingAccessorPermission::ReadSecret
        } else if str_eq(s, "update") {
            SharingAccessorPermission::Update
        } else if str_eq(s, "create") {
            SharingAccessorPermission::Create
        } else if str_eq(s, "delete") {
            SharingAccessorPermission::Delete
        } else if str_eq(s, "share") {
            SharingAccessorPermission::Share
        } else if str_eq(s, "manage") {
            SharingAccessorPermission::Manage
        } else {
            SharingAccessorPermission::Unknown(s.to_owned())
        }
    }

    /// The permission's wire name.
    pub fn wire_name(&self) -> (r: String)
        ensures
            r@ == permission_name(self@),
    {
        match self {
            SharingAccessorPermission::Read => "read".to_owned(),
            SharingAccessorPermission::ReadSecret => "readSecret".to_owned(),
            SharingAccessorPermission::Update => "update".to_owned(),
            SharingAccessorPermission::Create => "create".to_owned(),
            SharingAccessorPermission::Delete => "delete".to_owned(),
            SharingAccessorPermission::Share => "share".to_owned(),
            SharingAccessorPermission::Manage => "manage".to_owned(),
            SharingAccessorPermission::Unknown(s) => s.clone(),
        }
    }
}

/// What decoding one permission entry yields: it must be a string.
pub open spec fn permission_entry_decoded(j: JsonV) -> Result<
    SharingAccessorPermissionV,
    DecodeError,
> {
    match j {
        JsonV::Str(s) => Ok(permission_parsed(s)),
        _ => Err(DecodeError::InvalidMember),
    }
}

/// The permission element decoder as a function value.
pub open spec fn permission_decoder() -> spec_fn(JsonV) -> Result<
    SharingAccessorPermissionV,
    DecodeError,
> {
    |x: JsonV| permission_entry_decoded(x)
}

/// The field list of an encoded sharing accessor.
pub open spec fn accessor_entries(v: SharingAccessorV) -> Seq<(Seq<char>, JsonV)> {
    seq![
        ("type"@, JsonV::Str(accessor_type_name(v.ty))),
        ("accountId"@, JsonV::Str(b64url_encoded(v.account_id))),
        ("name"@, JsonV::Str(v.name)),
        (
            "permissions"@,
            JsonV::Arr(
                v.permissions.map_values(|p: SharingAccessorPermissionV| JsonV::Str(permission_name(p))),
            ),
        ),
    ]
}

/// What decoding a sharing accessor yields.
pub open spec fn accessor_decoded(j: JsonV) -> Result<SharingAccessorV, DecodeError> {
    match j {
        JsonV::Obj(o) => match lookup(o, "type"@) {
            Some(JsonV::Str(t)) => match lookup(o, "accountId"@) {
                Some(JsonV::Str(a)) => match b64url_parse(a) {
                    Some(account) => match lookup(o, "name"@) {
                        Some(JsonV::Str(n)) => match lookup(o, "permissions"@) {
                            Some(JsonV::Arr(pjs)) => match arr_decoded(permission_decoder(), pjs) {
                                Ok(ps) => Ok(
                                    SharingAccessorV {
                                        ty: accessor_type_parsed(t),
                                        account_id: account,
                                        name: n,
                                        permissions: ps,
                                    },
                                ),
                                Err(e) => Err(e),
                            },
                            Some(_) => Err(DecodeError::InvalidMember),
                            None => Err(DecodeError::MissingMember),
                        },
                        Some(_) => Err(DecodeError::InvalidMember),
                        None => Err(DecodeError::MissingMember),
                    },
                    None => Err(DecodeError::InvalidMember),
                },
                Some(_) => Err(DecodeError::InvalidMember),
                None => Err(DecodeError::MissingMember),
            },
            Some(_) => Err(DecodeError::InvalidMember),
            None => Err(DecodeError::MissingMember),
        },
        _ => Err(DecodeError::NotAnObject),
    }
}

/// The accessor element decoder as a function value.
pub open spec fn accessor_decoder() -> spec_fn(JsonV) -> Result<SharingAccessorV, DecodeError> {
    |x: JsonV| accessor_decoded(x)
}

impl SharingAccessor {
    /// Decodes a sharing accessor from a JSON value.
    #[verifier::loop_isolation(false)]
    pub fn decode(j: &Json) -> (r: Result<Self, DecodeError>)
        ensures
            match r {
                Ok(v) => accessor_decoded(j@) == Ok::<SharingAccessorV, DecodeError>(v@),
                Err(e) => accessor_decoded(j@) == Err::<SharingAccessorV, DecodeError>(e),
            },
    {
        let fields = match j {
            Json::Obj(fields) => fields,
            _ => {
                return Err(DecodeError::NotAnObject);
            },
        };
        let ty = match Json::obj_get(fields, "type") {
            Some(Json::Str(s)) => SharingAccessorType::from_wire(s.as_str()),
            Some(_) => {
                return Err(DecodeError::InvalidMember);
            },
            None => {
                return Err(DecodeError::MissingMember);
            },
        };
        let account_id = match Json::obj_get(fields, "accountId") {
            Some(Json::Str(s)) => match B64Url::decode(s.as_str()) {
                Ok(b) => b,
                Err(_) => {
                    return Err(DecodeError::InvalidMember);
                },
            },
            Some(_) => {
                return Err(DecodeError::InvalidMember);
            },
            None => {
                return Err(DecodeError::MissingMember);
            },
        };
        let name = match Json::obj_get(fields, "name") {
            Some(Json::Str(s)) => s.clone(),
            Some(_) => {
                return Err(DecodeError::InvalidMember);
            },
            None => {
                return Err(DecodeError::MissingMember);
            },
        };
        let perm_items = match Json::obj_get(fields, "permissions") {
            Some(Json::Arr(items)) => items,
            Some(_) => {
                return Err(DecodeError::InvalidMember);
            },
            None => {
                return Err(DecodeError::MissingMember);
            },
        };
        let mut permissions: Vec<SharingAccessorPermission> = Vec::new();
        let mut i: usize = 0;
        let ghost pjs = items_view(*perm_items);
        while i < perm_items.len()
            invariant
                pjs == items_view(*perm_items),
                i <= perm_items@.len(),
                permissions.deep_view().len() == i as int,
                forall|k: int|
                    0 <= k < i ==> permission_entry_decoded(#[trigger] pjs[k]) == Ok::<
                        SharingAccessorPermissionV,
                        DecodeError,
                    >(permissions.deep_view()[k]),
            decreases perm_items@.len() - i,
        {
            proof {
                assert(pjs[i as int] == perm_items@[i as int]@);
            }
            match &perm_items[i] {
                Json::Str(s) => {
                    permissions.push(SharingAccessorPermission::from_wire(s.as_str()));
                    proof {
                        assert(permissions.deep_view()[i as int] == permission_parsed(s@));
                    }
                },
                _ => {
                    proof {
                        lemma_arr_decoded_err(
                            permission_decoder(),
                            pjs,
                            i as int,
                            DecodeError::InvalidMember,
                        );
                    }
                    return Err(DecodeError::InvalidMember);
                },
            }
            i += 1;
        }
        proof {
            lemma_arr_decoded_ok(permission_decoder(), pjs, permissions.deep_view());
        }
        Ok(SharingAccessor { ty, account_id, name, permissions })
    }

    /// Encodes the sharing accessor.
    #[verifier::loop_isolation(false)]
    pub fn encode(&self) -> (r: Json)
        ensures
            r@ == JsonV::Obj(accessor_entries(self@)),
    {
        let mut perm_items: Vec<Json> = Vec::new();
        let mut i: usize = 0;
        while i < self.permissions.len()
            invariant
                i <= self.permissions@.len(),
                perm_items@.len() == i,
                forall|k: int|
                    0 <= k < i ==> (#[trigger] perm_items@[k])@ == JsonV::Str(
                        permission_name(self.permissions.deep_view()[k]),
                    ),
            decreases self.permissions@.len() - i,
        {
            perm_items.push(Json::Str(self.permissions[i].wire_name()));
            i += 1;
        }
        let mut fields: Vec<(String, Json)> = Vec::new();
        fields.push(("type".to_owned(), Json::Str(self.ty.wire_name())));
        fields.push(("accountId".to_owned(), Json::Str(self.account_id.to_string())));
        fields.push(("name".to_owned(), Json::Str(self.name.clone())));
        fields.push(("permissions".to_owned(), Json::Arr(perm_items)));
        proof {
            assert(items_view(fields@[3].1->Arr_0) =~= self@.permissions.map_values(
                |p: SharingAccessorPermissionV| JsonV::Str(permission_name(p)),
            ));
            assert(fields_view(fields) =~= accessor_entries(self@));
        }
        Json::Obj(fields)
    }
}

/// What decoding the field list of a sharing extension yields.
pub open spec fn shared_decoded(o: Seq<(Seq<char>, JsonV)>) -> Result<
    SharedExtensionV,
    DecodeError,
> {
    match lookup(o, "accessors"@) {
        Some(JsonV::Arr(ajs)) => match arr_decoded(accessor_decoder(), ajs) {
            Ok(accessors) => Ok(SharedExtensionV { accessors }),
            Err(e) => Err(e),
        },
        Some(_) => Err(DecodeError::InvalidMember),
        None => Err(DecodeError::MissingMember),
    }
}

/// The field list of an encoded sharing extension, the `name` tag included.
pub open spec fn shared_entries(v: SharedExtensionV) -> Seq<(Seq<char>, JsonV)> {
    seq![
        ("name"@, JsonV::Str("shared"@)),
        (
            "accessors"@,
            JsonV::Arr(v.accessors.map_values(|a: SharingAccessorV| JsonV::Obj(accessor_entries(a)))),
        ),
    ]
}

/// What decoding an extension yields. Decoding is total: anything that is
/// not a well-formed sharing extension is preserved verbatim.
pub open spec fn extension_decoded(j: JsonV) -> ExtensionV {
    match j {
        JsonV::Obj(o) => match lookup(o, "name"@) {
            Some(JsonV::Str(n)) => if n == "shared"@ {
                match shared_decoded(o) {
                    Ok(se) => ExtensionV::Shared(se),
                    Err(_) => ExtensionV::Unknown(j),
                }
            } else {
                ExtensionV::Unknown(j)
            },
            _ => ExtensionV::Unknown(j),
        },
        _ => ExtensionV::Unknown(j),
    }
}

/// What encoding an extension produces.
pub open spec fn extension_encoded(v: ExtensionV) -> JsonV {
    match v {
        ExtensionV::Shared(se) => JsonV::Obj(shared_entries(se)),
        ExtensionV::Unknown(j) => j,
    }
}

impl Extension {
    /// Decodes an extension from a JSON value; never fails. A payload that
    /// is not a well-formed known extension is kept verbatim.
    #[verifier::loop_isolation(false)]
    pub fn decode(j: Json) -> (r: Extension)
        ensures
            r@ == extension_decoded(j@),
    {
        let is_shared = match &j {
            Json::Obj(fields) => match Json::obj_get(fields, "name") {
                Some(Json::Str(s)) => str_eq(s.as_str(), "shared"),
                _ => false,
            },
            _ => false,
        };
        if !is_shared {
            return Extension::Unknown(j);
        }
        let fields = match &j {
            Json::Obj(fields) => fields,
            _ => {
                return Extension::Unknown(j);
            },
        };
        let acc_items = match Json::obj_get(fields, "accessors") {
            Some(Json::Arr(items)) => items,
            _ => {
                return Extension::Unknown(j);
            },
        };
        let mut accessors: Vec<SharingAccessor> = Vec::new();
        let mut i: usize = 0;
        let ghost ajs = items_view(*acc_items);
        while i < acc_items.len()
            invariant
                ajs == items_view(*acc_items),
                i <= acc_items@.len(),
                accessors.deep_view().len() == i as int,
                forall|k: int|
                    0 <= k < i ==> accessor_decoded(#[trigger] ajs[k]) == Ok::<
                        SharingAccessorV,
                        DecodeError,
                    >(accessors.deep_view()[k]),
            decreases acc_items@.len() - i,
        {
            proof {
                assert(ajs[i as int] == acc_items@[i as int]@);
            }
            match SharingAccessor::decode(&acc_items[i]) {
                Ok(a) => {
                    accessors.push(a);
                    proof {
                        assert(accessors.deep_view()[i as int] == a@);
                    }
                },
                Err(e) => {
                    proof {
                        lemma_arr_decoded_err(accessor_decoder(), ajs, i as int, e);
                    }
                    return Extension::Unknown(j);
                },
            }
            i += 1;
        }
        proof {
            lemma_arr_decoded_ok(accessor_decoder(), ajs, accessors.deep_view());
        }
        Extension::Shared(SharedExtension { accessors })
    }

    /// Encodes the extension; an unknown extension is reproduced verbatim.
    #[verifier::loop_isolation(false)]
    pub fn encode(&self) -> (r: Json)
        ensures
            r@ == extension_encoded(self@),
    {
        match self {
            Extension::Unknown(j) => j.clone(),
            Extension::Shared(se) => {
                let mut acc_items: Vec<Json> = Vec::new();
                let mut i: usize = 0;
                while i < se.accessors.len()
                    invariant
                        i <= se.accessors@.len(),
                        acc_items@.len() == i,
                        forall|k: int|
                            0 <= k < i ==> (#[trigger] acc_items@[k])@ == JsonV::Obj(
                                accessor_entries(se.accessors.deep_view()[k]),
                            ),
                    decreases se.accessors@.len() - i,
                {
                    acc_items.push(se.accessors[i].encode());
                    i += 1;
                }
                let mut fields: Vec<(String, Json)> = Vec::new();
                fields.push(("name".to_owned(), Json::Str("shared".to_owned())));
                fields.push(("accessors".to_owned(), Json::Arr(acc_items)));
                proof {
                    assert(items_view(fields@[1].1->Arr_0) =~= se@.accessors.map_values(
                        |a: SharingAccessorV| JsonV::Obj(accessor_entries(a)),
                    ));
                    assert(fields_view(fields) =~= shared_entries(se@));
                }
                Json::Obj(fields)
            },
        }
    }
}

/// The permissions that remain once unknown entries are discarded.
pub open spec fn known_permissions(ps: Seq<SharingAccessorPermissionV>) -> Seq<
    SharingAccessorPermissionV,
>
    decreases ps.len(),
{
    if ps.len() == 0 {
        Seq::empty()
    } else {
        let rest = known_permissions(ps.drop_last());
        if ps.last() is Unknown {
            rest
        } else {
            rest.push(ps.last())
        }
    }
}

/// The accessors an importer must honour: accessors of unknown kind are
/// dropped, unknown permissions are discarded, and an accessor whose
/// permission list becomes empty after that is dropped entirely rather than
/// treated as a zero-permission grant.
pub open spec fn effective(accessors: Seq<SharingAccessorV>) -> Seq<SharingAccessorV>
    decreases accessors.len(),
{
    if accessors.len() == 0 {
        Seq::empty()
    } else {
        let rest = effective(accessors.drop_last());
        let a = accessors.last();
        if a.ty is Unknown || known_permissions(a.permissions).len() == 0 {
            rest
        } else {
            rest.push(SharingAccessorV { permissions: known_permissions(a.permissions), ..a })
        }
    }
}

fn filter_permissions(ps: &Vec<SharingAccessorPermission>) -> (r: Vec<SharingAccessorPermission>)
    ensures
        r.deep_view() == known_permissions(ps.deep_view()),
{
    let mut out: Vec<SharingAccessorPermission> = Vec::new();
    let mut i: usize = 0;
    let n = ps.len();
    while i < n
        invariant
            n == ps@.len(),
            i <= n,
            out.deep_view() =~= known_permissions(ps.deep_view().take(i as int)),
        decreases n - i,
    {
        proof {
            assert(ps.deep_view().take(i + 1).drop_last() =~= ps.deep_view().take(i as int));
            assert(ps.deep_view().take(i + 1).last() == ps.deep_view()[i as int]);
        }
        let kept: Option<SharingAccessorPermission> = match &ps[i] {
            SharingAccessorPermission::Read => Some(SharingAccessorPermission::Read),
            SharingAccessorPermission::ReadSecret => Some(SharingAccessorPermission::ReadSecret),
            SharingAccessorPermission::Update => Some(SharingAccessorPermission::Update),
            SharingAccessorPermission::Create => Some(SharingAccessorPermission::Create),
            SharingAccessorPermission::Delete => Some(SharingAccessorPermission::Delete),
            SharingAccessorPermission::Share => Some(SharingAccessorPermission::Share),
            SharingAccessorPermission::Manage => Some(SharingAccessorPermission::Manage),
            SharingAccessorPermission::Unknown(_) => None,
        };
        match kept {
            Some(p) => {
                out.push(p);
                proof {
                    assert(out.deep_view() =~= known_permissions(ps.deep_view().take(i + 1)));
                }
            },
            None => {
                proof {
                    assert(out.deep_view() =~= known_permissions(ps.deep_view().take(i + 1)));
                }
            },
        }
        i += 1;
    }
    proof {
        assert(ps.deep_view().take(n as int) =~= ps.deep_view());
    }
    out
}

impl SharedExtension {
    /// The accessors an importer must honour.
    ///
    /// Accessors of unknown kind are dropped; unknown permissions are
    /// discarded; and an accessor whose permission list becomes empty after
    /// discarding unknown entries is excluded entirely from the effective
    /// accessor set.
    pub fn effective_accessors(&self) -> (r: Vec<SharingAccessor>)
        ensures
            r.deep_view() == effective(self@.accessors),
    {
        let mut out: Vec<SharingAccessor> = Vec::new();
        let mut i: usize = 0;
        let n = self.accessors.len();
        while i < n
            invariant
                n == self.accessors@.len(),
                i <= n,
                out.deep_view() =~= effective(self.accessors.deep_view().take(i as int)),
            decreases n - i,
        {
            proof {
                assert(self.accessors.deep_view().take(i + 1).drop_last()
                    =~= self.accessors.deep_view().take(i as int));
                assert(self.accessors.deep_view().take(i + 1).last()
                    == self.accessors.deep_view()[i as int]);
            }
            let a = &self.accessors[i];
            let ty: Option<SharingAccessorType> = match &a.ty {
                SharingAccessorType::User => Some(SharingAccessorType::User),
                SharingAccessorType::Group => Some(SharingAccessorType::Group),
                SharingAccessorType::Unknown(_) => None,
            };
            match ty {
                Some(t) => {
                    let perms = filter_permissions(&a.permissions);
                    if perms.len() > 0 {
                        let kept = SharingAccessor {
                            ty: t,
                            account_id: a.account_id.clone(),
                            name: a.name.clone(),
                            permissions: perms,
                        };
                        out.push(kept);
                        proof {
                            assert(out.deep_view() =~= effective(
                                self.accessors.deep_view().take(i + 1),
                            ));
                        }
                    } else {
                        proof {
                            assert(out.deep_view() =~= effective(
                                self.accessors.deep_view().take(i + 1),
                            ));
                        }
                    }
                },
                None => {
                    proof {
                        assert(out.deep_view() =~= effective(
                            self.accessors.deep_view().take(i + 1),
                        ));
                    }
                },
            }
            i += 1;
        }
        proof {
            assert(self.accessors.deep_view().take(n as int) =~= self.accessors.deep_view());
        }
        out
    }
}

} // verus!
