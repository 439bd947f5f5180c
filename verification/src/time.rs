//! RFC 3339 timestamp handling, delegated to the `chrono` crate behind
//! two trusted wrappers.  Both results are functions of the input string
//! alone, so each is given an uninterpreted name that the callers'
//! contracts are stated over.

use vstd::prelude::*;

verus! {

/// The number of seconds since the Unix epoch encoded by the RFC 3339
/// string `s`, or `None` when `s` is not a valid RFC 3339 timestamp.
pub uninterp spec fn rfc3339_epoch(s: Seq<char>) -> Option<i64>;

/// The canonical RFC 3339 rendering of the timestamp encoded by `s`, or
/// `None` when `s` is not a valid RFC 3339 timestamp.
pub uninterp spec fn rfc3339_canon(s: Seq<char>) -> Option<Seq<char>>;

/// Relies on chrono's `DateTime::parse_from_rfc3339` and
/// `DateTime::timestamp`: parses an RFC 3339 timestamp and reads its
/// Unix-epoch second; both depend on the characters of `s` alone.
#[verifier::external_body]
pub(crate) fn parse_rfc3339_epoch(s: &str) -> (r: Option<i64>)
    ensures
        r == rfc3339_epoch(s@),
{
    match chrono::DateTime::parse_from_rfc3339(s) {
        Ok(d) => Some(d.timestamp()),
        Err(_) => None,
    }
}

/// Relies on chrono's `DateTime::parse_from_rfc3339` and
/// `DateTime::to_rfc3339`: parses an RFC 3339 timestamp and renders it
/// back in canonical form; both depend on the characters of `s` alone.
#[verifier::external_body]
pub(crate) fn canonicalize_rfc3339(s: &str) -> (r: Option<String>)
    ensures
        r is Some <==> rfc3339_canon(s@) is Some,
        r is Some ==> r->0@ == rfc3339_canon(s@)->0,
{
    match chrono::DateTime::parse_from_rfc3339(s) {
        Ok(d) => Some(d.to_rfc3339()),
        Err(_) => None,
    }
}

} // verus!
