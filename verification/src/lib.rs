//! Release resolution and cache-freshness engine for an auto-update
//! metadata service.
//!
//! Given a client's platform, CPU architecture and currently installed
//! version, the library decides whether a newer release exists, which
//! per-platform artifact and signature belong to it, and how fresh the
//! cached release metadata still is.  All decision logic lives here and
//! carries contracts; transport, storage and JSON plumbing stay outside.

use vstd::prelude::*;

pub mod aggregate;
pub mod resolver;
pub mod sanitize;
pub mod selector;
pub mod freshness;
pub mod matcher;
pub mod model;
pub mod text;
pub mod time;

verus! {

/// Which kind of per-release file a lookup was after.
#[derive(Clone, Copy, Debug, PartialEq, Eq, Structural)]
pub enum AssetKind {
    /// The update package itself (e.g. `.nsis.zip`).
    Update,
    /// The detached signature accompanying the update package.
    Signature,
    /// The plain installer used by the download redirect.
    Install,
}

/// Every way a request through the engine can fail.  Each kind maps to a
/// fixed HTTP-style status for the caller.
#[derive(Clone, Copy, Debug, PartialEq, Eq, Structural)]
pub enum UpdateError {
    /// A required request parameter was absent.
    MissingParameter,
    /// The requested target platform is not recognized.
    InvalidTarget,
    /// Fetching or decoding upstream data (release list or signature) failed.
    UpstreamFetchFailed,
    /// Every release tag equals the client's current version, or there are
    /// no releases at all.
    NoNewRelease,
    /// The chosen release has no asset with the required file-name suffix.
    NoMatchingAsset(AssetKind),
    /// A publish or cache timestamp could not be parsed as RFC 3339.
    DateUnparsable,
    /// The cache store collaborator failed; callers degrade to a refresh.
    CacheUnavailable,
}

/// The HTTP-style status that `e` maps to: 400 for parameter and target
/// errors, 404 for not-found conditions, 500 for upstream and parse
/// failures.
pub open spec fn spec_status_code(e: UpdateError) -> u16 {
    match e {
        UpdateError::MissingParameter => 400,
        UpdateError::InvalidTarget => 400,
        UpdateError::NoNewRelease => 404,
        UpdateError::NoMatchingAsset(_) => 404,
        UpdateError::UpstreamFetchFailed => 500,
        UpdateError::DateUnparsable => 500,
        UpdateError::CacheUnavailable => 500,
    }
}

/// The human-readable message each error kind carries to the caller.
pub open spec fn spec_message(e: UpdateError) -> Seq<char> {
    match e {
        UpdateError::MissingParameter => "Missing parameter"@,
        UpdateError::InvalidTarget => "Invalid target"@,
        UpdateError::NoNewRelease => "No new release found"@,
        UpdateError::NoMatchingAsset(AssetKind::Update) => "No update asset found"@,
        UpdateError::NoMatchingAsset(AssetKind::Signature) => "No signature asset found"@,
        UpdateError::NoMatchingAsset(AssetKind::Install) => "No asset found for target"@,
        UpdateError::UpstreamFetchFailed => "Failed to fetch releases"@,
        UpdateError::DateUnparsable => "Failed to parse published date"@,
        UpdateError::CacheUnavailable => "Cache unavailable"@,
    }
}

impl UpdateError {
    /// The fixed status code this error kind is translated to at the
    /// boundary.
    pub fn status_code(&self) -> (r: u16)
        ensures
            r == spec_status_code(*self),
    {
        match *self {
            UpdateError::MissingParameter => 400,
            UpdateError::InvalidTarget => 400,
            UpdateError::NoNewRelease => 404,
            UpdateError::NoMatchingAsset(_) => 404,
            UpdateError::UpstreamFetchFailed => 500,
            UpdateError::DateUnparsable => 500,
            UpdateError::CacheUnavailable => 500,
        }
    }

    /// The response body text for this error kind.
    pub fn message(&self) -> (r: String)
        ensures
            r@ == spec_message(*self),
    {
        match *self {
            UpdateError::MissingParameter => String::from_str("Missing parameter"),
            UpdateError::InvalidTarget => String::from_str("Invalid target"),
            UpdateError::NoNewRelease => String::from_str("No new release found"),
            UpdateError::NoMatchingAsset(AssetKind::Update) => String::from_str(
                "No update asset found",
            ),
            UpdateError::NoMatchingAsset(AssetKind::Signature) => String::from_str(
                "No signature asset found",
            ),
            UpdateError::NoMatchingAsset(AssetKind::Install) => String::from_str(
                "No asset found for target",
            ),
            UpdateError::UpstreamFetchFailed => String::from_str("Failed to fetch releases"),
            UpdateError::DateUnparsable => String::from_str("Failed to parse published date"),
            UpdateError::CacheUnavailable => String::from_str("Cache unavailable"),
        }
    }
}

} // verus!
