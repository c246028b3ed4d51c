//! Credential Exchange Format: a vendor-neutral schema for transferring
//! password-manager data between credential-management providers.
//!
//! The crate models the wire format as a JSON value tree and provides
//! verified encoders and decoders for the schema types, including the
//! self-describing `EditableField` wrapper and the open sum types that
//! preserve unknown future variants without data loss.

use vstd::prelude::*;

pub mod b64url;
pub mod credential;
pub mod document;
pub mod editable_field;
pub mod error;
pub mod extensions;
pub mod json;
pub mod passkey;
pub mod protocol;
pub mod text;
pub mod timestamp;

verus! {

/// The version of the exchange format contained in a payload.
#[derive(Clone, Copy, Debug, PartialEq, Eq, Structural)]
pub struct Version {
    /// Major version; a change here is a breaking change.
    pub major: u8,
    /// Minor version; a change here is purely additive.
    pub minor: u8,
}

} // verus!
