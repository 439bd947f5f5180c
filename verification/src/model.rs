//! The data model: releases and their assets as fetched upstream, the
//! two cached facts (release snapshot and download total), and the
//! transient results the resolver hands back.

use vstd::prelude::*;

verus! {

/// One downloadable file attached to a release.
#[derive(Clone, Debug)]
pub struct ReleaseAsset {
    /// Upstream file name.
    pub name: String,
    /// Absolute URL the file is served from.
    pub download_url: String,
    /// Upstream download counter, non-negative and non-decreasing.
    pub download_count: u64,
}

/// One published version: an immutable snapshot of upstream state at
/// fetch time.
#[derive(Clone, Debug)]
pub struct Release {
    /// Version tag, e.g. `v1.2.3`.
    pub tag: String,
    /// Publish timestamp as an RFC 3339 string.
    pub published_at: String,
    /// Raw markdown release notes.
    pub notes: String,
    /// Attached files, upstream order preserved.
    pub assets: Vec<ReleaseAsset>,
}

/// Cached fact #1: the release list fetched at `captured_at`.
#[derive(Clone, Debug)]
pub struct ReleaseSnapshot {
    /// The fetched releases, newest first per upstream convention but
    /// never assumed sorted.
    pub releases: Vec<Release>,
    /// When this list was fetched, as an RFC 3339 string.
    pub captured_at: String,
}

/// Cached fact #2: the aggregate download count.
#[derive(Clone, Debug)]
pub struct DownloadTotal {
    /// Sum of every asset's download counter across every release.
    pub total: u64,
    /// Timestamp this total is dated from, as an RFC 3339 string.
    pub captured_at: String,
}

/// Everything the version-check response needs, minus the signature
/// body, which is fetched from `signature_url` by the caller.
#[derive(Clone, Debug)]
pub struct UpdatePlan {
    /// Digits-and-dots version string derived from the release tag.
    pub version: String,
    /// Publish timestamp, normalized to canonical RFC 3339 form.
    pub pub_date: String,
    /// URL of the update artifact.
    pub download_url: String,
    /// URL of the detached signature file.
    pub signature_url: String,
    /// Sanitized release notes.
    pub notes: String,
}

/// The finished version-check response: an `UpdatePlan` plus the fetched
/// signature body.
#[derive(Clone, Debug)]
pub struct ResolvedUpdate {
    /// Digits-and-dots version string derived from the release tag.
    pub version: String,
    /// Publish timestamp, normalized to canonical RFC 3339 form.
    pub pub_date: String,
    /// URL of the update artifact.
    pub download_url: String,
    /// Contents of the fetched signature file.
    pub signature: String,
    /// Sanitized release notes.
    pub notes: String,
}

/// What the download-redirect flow needs: the installer URL and the
/// canonical publish date the bumped download total is dated from.
#[derive(Clone, Debug)]
pub struct DownloadPlan {
    /// URL of the plain installer asset of the selected release.
    pub url: String,
    /// Canonical RFC 3339 form of the first listed release's publish
    /// timestamp.
    pub pub_date: String,
}

} // verus!
