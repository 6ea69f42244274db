//! Reading the bounds of a time window, which are written as RFC 3339
//! timestamps. The reading itself is chrono's.

use std::str::FromStr;
use vstd::prelude::*;
use chrono::{DateTime, Utc};
use crate::instant::Instant;

verus! {

/// chrono's `ParseError`, carried through as it is.
#[verifier::external_type_specification]
#[verifier::external_body]
pub struct ExParseError(chrono::ParseError);

/// What chrono reads from `text` as a timestamp with an offset: the instant,
/// as its whole seconds since the epoch and the nanoseconds past that
/// second, or `None` where chrono refuses the text.
pub uninterp spec fn parsed_instant(text: Seq<char>) -> Option<(int, int)>;

/// Calls chrono's `FromStr` for `DateTime<Utc>`, which reads a relaxed form
/// of RFC 3339, and takes the instant apart with `DateTime::timestamp` and
/// `DateTime::timestamp_subsec_nanos`.
///
/// Believed, not proved: the outcome depends on the text alone, so it is the
/// one that `parsed_instant` names.
#[verifier::external_body]
pub(crate) fn parse_utc(text: &str) -> (r: Result<(i64, u32), chrono::ParseError>)
    ensures
        match r {
            Ok(parts) => parsed_instant(text@) == Some((parts.0 as int, parts.1 as int)),
            Err(_) => parsed_instant(text@) is None,
        },
{
    match DateTime::<Utc>::from_str(text) {
        Ok(moment) => Ok((moment.timestamp(), moment.timestamp_subsec_nanos())),
        Err(e) => Err(e),
    }
}

/// A bound that is no timestamp, with chrono's account of what is wrong.
#[derive(Clone, Copy, Debug, PartialEq, Eq)]
pub struct BoundError {
    pub source: chrono::ParseError,
}

/// The bound that a reading of a timestamp gives: the instant made of the
/// parts that were read, or the refusal handed on.
pub fn bound_from_parts(parts: Result<(i64, u32), chrono::ParseError>) -> (r: Result<
    Instant,
    BoundError,
>)
    ensures
        match parts {
            Ok(p) => r == Ok::<Instant, BoundError>(Instant { secs: p.0, nanos: p.1 }),
            Err(e) => r == Err::<Instant, BoundError>(BoundError { source: e }),
        },
{
    match parts {
        Ok(p) => Ok(Instant { secs: p.0, nanos: p.1 }),
        Err(e) => Err(BoundError { source: e }),
    }
}

/// Reads one bound of a time window. The text may carry any offset from UTC;
/// the bound is the instant it names.
///
/// The reading succeeds exactly on the texts that chrono accepts, and gives
/// the instant that chrono read.
pub fn parse_bound(text: &str) -> (r: Result<Instant, BoundError>)
    ensures
        r is Ok <==> parsed_instant(text@) is Some,
        r matches Ok(t) ==> parsed_instant(text@) == Some((t.secs as int, t.nanos as int)),
{
    bound_from_parts(parse_utc(text))
}

} // verus!
