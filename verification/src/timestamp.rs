//! Flexible timestamp codec.
//!
//! A timestamp crosses the wire either as an integer count of seconds since
//! the UNIX epoch or as an RFC3339 datetime string; every other JSON shape is
//! a type error. Encoding always emits the epoch integer, so round trips are
//! deterministic whatever form the producer chose.

use vstd::prelude::*;
use chrono::TimeZone;
use crate::json::{Json, JsonV};

verus! {

/// What chrono's RFC3339 parser returns for a string: the epoch second count
/// of the parsed instant, normalized to UTC. The result depends on the
/// characters alone.
pub uninterp spec fn rfc3339_secs(s: Seq<char>) -> Option<i64>;

/// Whether chrono can represent this epoch second count as a datetime.
pub uninterp spec fn epoch_in_range(secs: i64) -> bool;

/// Relies on chrono: `str::parse::<DateTime<Utc>>` accepts RFC3339 datetime
/// strings, and the parsed instant's `timestamp()` is its epoch second count,
/// which chrono can always represent again.
#[verifier::external_body]
fn parse_rfc3339(s: &str) -> (r: Option<i64>)
    ensures
        r == rfc3339_secs(s@),
        r matches Some(v) ==> epoch_in_range(v),
{
    match s.parse::<chrono::DateTime<chrono::Utc>>() {
        Ok(dt) => Some(dt.timestamp()),
        Err(_) => None,
    }
}

/// Relies on chrono: `Utc.timestamp_opt(secs, 0)` is a single instant exactly
/// when the second count is within chrono's representable range.
#[verifier::external_body]
fn check_epoch(secs: i64) -> (r: bool)
    ensures
        r == epoch_in_range(secs),
{
    chrono::Utc.timestamp_opt(secs, 0).single().is_some()
}

/// Why a timestamp failed to decode.
#[derive(Clone, Copy, Debug, PartialEq, Eq, Structural)]
pub enum TimestampError {
    /// The integer is outside the representable datetime range.
    OutOfRange,
    /// The string is not a valid RFC3339 datetime.
    InvalidIso8601,
    /// The JSON value is neither an integer nor a string.
    WrongJsonKind,
}

/// A logical instant in UTC, held as whole seconds since the UNIX epoch.
#[derive(Clone, Copy, Debug, PartialEq, Eq, Structural)]
pub struct Timestamp {
    /// Seconds since 1970-01-01T00:00:00Z.
    pub secs: i64,
}

/// What decoding a timestamp from a JSON value yields: the epoch seconds of
/// an in-range integer, the parsed instant of an RFC3339 string, or the exact
/// error otherwise.
pub open spec fn timestamp_decoded(j: JsonV) -> Result<i64, TimestampError> {
    match j {
        JsonV::Int(i) => if i64::MIN <= i <= i64::MAX && epoch_in_range(i as i64) {
            Ok(i as i64)
        } else {
            Err(TimestampError::OutOfRange)
        },
        JsonV::Str(s) => match rfc3339_secs(s) {
            Some(v) => Ok(v),
            None => Err(TimestampError::InvalidIso8601),
        },
        _ => Err(TimestampError::WrongJsonKind),
    }
}

/// What decoding an optional timestamp yields: `None` for JSON null, and a
/// plain timestamp decode otherwise.
pub open spec fn timestamp_option_decoded(j: JsonV) -> Result<Option<i64>, TimestampError> {
    match j {
        JsonV::Null => Ok(None),
        _ => match timestamp_decoded(j) {
            Ok(v) => Ok(Some(v)),
            Err(e) => Err(e),
        },
    }
}

impl Timestamp {
    /// A decoded timestamp is always within chrono's representable range.
    pub open spec fn wf(self) -> bool {
        epoch_in_range(self.secs)
    }

    /// Decodes a timestamp from either an epoch integer or an RFC3339 string.
    pub fn decode(j: &Json) -> (r: Result<Timestamp, TimestampError>)
        ensures
            match r {
                Ok(t) => timestamp_decoded(j@) == Ok::<i64, TimestampError>(t.secs) && t.wf(),
                Err(e) => timestamp_decoded(j@) == Err::<i64, TimestampError>(e),
            },
    {
        match j {
            Json::Int(i) => if check_epoch(*i) {
                Ok(Timestamp { secs: *i })
            } else {
                Err(TimestampError::OutOfRange)
            },
            Json::Str(s) => match parse_rfc3339(s.as_str()) {
                Some(v) => Ok(Timestamp { secs: v }),
                None => Err(TimestampError::InvalidIso8601),
            },
            _ => Err(TimestampError::WrongJsonKind),
        }
    }

    /// Decodes an optional timestamp; JSON null yields `None`.
    pub fn decode_option(j: &Json) -> (r: Result<Option<Timestamp>, TimestampError>)
        ensures
            match r {
                Ok(Some(t)) => timestamp_option_decoded(j@) == Ok::<Option<i64>, TimestampError>(
                    Some(t.secs),
                ) && t.wf(),
                Ok(None) => timestamp_option_decoded(j@) == Ok::<Option<i64>, TimestampError>(None),
                Err(e) => timestamp_option_decoded(j@) == Err::<Option<i64>, TimestampError>(e),
            },
    {
        match j {
            Json::Null => Ok(None),
            _ => match Timestamp::decode(j) {
                Ok(t) => Ok(Some(t)),
                Err(e) => Err(e),
            },
        }
    }

    /// Encodes the instant; the wire form is always the epoch integer.
    pub fn encode(&self) -> (r: Json)
        ensures
            r@ == JsonV::Int(self.secs as int),
    {
        Json::Int(self.secs)
    }

    /// Encodes an optional instant; `None` becomes JSON null.
    pub fn encode_option(t: &Option<Timestamp>) -> (r: Json)
        ensures
            match t {
                Some(v) => r@ == JsonV::Int(v.secs as int),
                None => r@ == JsonV::Null,
            },
    {
        match t {
            Some(v) => Json::Int(v.secs),
            None => Json::Null,
        }
    }
}

/// Whatever form a timestamp arrived in, re-encoding it always yields the
/// epoch integer, and decoding that integer yields the same instant again.
pub proof fn lemma_timestamp_round_trip(t: Timestamp)
    requires
        t.wf(),
    ensures
        timestamp_decoded(JsonV::Int(t.secs as int)) == Ok::<i64, TimestampError>(t.secs),
{
}

} // verus!
