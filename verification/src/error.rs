//! The decode error shared by the structured schema types.

use vstd::prelude::*;
use crate::editable_field::FieldError;
use crate::timestamp::TimestampError;

verus! {

/// Why a structured schema value failed to decode.
#[derive(Clone, Copy, Debug, PartialEq, Eq, Structural)]
pub enum DecodeError {
    /// The JSON value is not an object.
    NotAnObject,
    /// The required type discriminator is missing.
    MissingType,
    /// The type discriminator is not a string.
    InvalidType,
    /// A required member is missing.
    MissingMember,
    /// A member has the wrong JSON shape or content.
    InvalidMember,
    /// An editable field inside the value failed to decode.
    Field(FieldError),
    /// A timestamp inside the value failed to decode.
    Timestamp(TimestampError),
}

} // verus!
