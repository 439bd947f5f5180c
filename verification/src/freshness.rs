//! CacheFreshnessGate: decides whether a cached fact may still be served
//! or must be refreshed.  A record is fresh while its capture time plus
//! the fixed window lies strictly in the future; an absent or unparsable
//! capture time is never fresh, forcing a refresh instead of silently
//! serving data of unknown age.

use vstd::prelude::*;
use crate::model::DownloadTotal;
use crate::model::ReleaseSnapshot;
use crate::time::parse_rfc3339_epoch;
use crate::time::rfc3339_epoch;

verus! {

/// Both cached facts share one fixed freshness window of five minutes.
pub const FRESHNESS_WINDOW_SECS: i64 = 300;

/// Freshness over an already-decoded capture time: fresh while
/// `captured + window` lies strictly after `now`, never fresh without a
/// capture time.
pub open spec fn spec_is_fresh_epoch(captured: Option<i64>, now: int, window: int) -> bool {
    match captured {
        Some(t) => t + window > now,
        None => false,
    }
}

/// Freshness of a record whose capture time is the RFC 3339 string
/// `captured_at`, under the fixed window.
pub open spec fn spec_is_fresh(captured_at: Seq<char>, now: int) -> bool {
    spec_is_fresh_epoch(rfc3339_epoch(captured_at), now, FRESHNESS_WINDOW_SECS as int)
}

/// Whether a capture time of `captured` seconds is still fresh at `now`
/// under `window`.
pub fn is_fresh_epoch(captured: i64, now: i64, window: i64) -> (r: bool)
    ensures
        r == (captured + window > now),
{
    (captured as i128) + (window as i128) > (now as i128)
}

/// Whether a record captured at the RFC 3339 time `captured_at` may
/// still be served at `now`, under the fixed five-minute window.  An
/// unparsable `captured_at` is never fresh.
pub fn is_fresh(captured_at: &str, now: i64) -> (r: bool)
    ensures
        r == spec_is_fresh(captured_at@, now as int),
{
    match parse_rfc3339_epoch(captured_at) {
        Some(t) => is_fresh_epoch(t, now, FRESHNESS_WINDOW_SECS),
        None => false,
    }
}

/// Freshness of the cached release snapshot; an absent cache entry is
/// never fresh.
pub fn snapshot_is_fresh(snapshot: &Option<ReleaseSnapshot>, now: i64) -> (r: bool)
    ensures
        r == match snapshot {
            Some(s) => spec_is_fresh(s.captured_at@, now as int),
            None => false,
        },
{
    match snapshot {
        Some(s) => is_fresh(s.captured_at.as_str(), now),
        None => false,
    }
}

/// Freshness of the cached download total; an absent cache entry is
/// never fresh.
pub fn total_is_fresh(total: &Option<DownloadTotal>, now: i64) -> (r: bool)
    ensures
        r == match total {
            Some(t) => spec_is_fresh(t.captured_at@, now as int),
            None => false,
        },
{
    match total {
        Some(t) => is_fresh(t.captured_at.as_str(), now),
        None => false,
    }
}

} // verus!
