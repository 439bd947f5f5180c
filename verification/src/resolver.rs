//! UpdateResolver: composes the matcher, selector, sanitizer and
//! aggregator over a release list to build the public results of the
//! version-check and download-redirect flows, and derives the refreshed
//! download totals.  The two outbound fetches (release list, signature
//! body) happen outside; these functions take the fetched values as
//! arguments and hand plain data back.

use vstd::prelude::*;
use crate::AssetKind;
use crate::UpdateError;
use crate::aggregate::lemma_release_sum_nonneg;
use crate::aggregate::release_sum;
use crate::aggregate::sat64;
use crate::aggregate::total_downloads;
use crate::matcher::install_suffix;
use crate::matcher::is_supported_target;
use crate::matcher::spec_install_suffix;
use crate::matcher::spec_update_suffixes;
use crate::matcher::update_suffixes;
use crate::model::DownloadPlan;
use crate::model::DownloadTotal;
use crate::model::Release;
use crate::model::ReleaseAsset;
use crate::model::ResolvedUpdate;
use crate::model::UpdatePlan;
use crate::sanitize::sanitize;
use crate::sanitize::spec_sanitize;
use crate::selector::all_tags_equal;
use crate::selector::extract_version;
use crate::selector::is_first_differing;
use crate::selector::is_first_max_tag;
use crate::selector::keep_digits_dots;
use crate::selector::latest_release_index;
use crate::selector::next_release_index;
use crate::text::spec_ends_with;
use crate::text::str_ends_with;
use crate::time::canonicalize_rfc3339;
use crate::time::rfc3339_canon;

verus! {

/// `k` is the first asset whose name ends with `suffix`.
pub open spec fn is_first_asset_match(assets: Seq<ReleaseAsset>, suffix: Seq<char>, k: int) -> bool {
    &&& 0 <= k < assets.len()
    &&& spec_ends_with(assets[k].name@, suffix)
    &&& forall|m: int| 0 <= m < k ==> !spec_ends_with(#[trigger] assets[m].name@, suffix)
}

/// Some asset's name ends with `suffix`.
pub open spec fn some_asset_matches(assets: Seq<ReleaseAsset>, suffix: Seq<char>) -> bool {
    exists|k: int| 0 <= k < assets.len() && spec_ends_with(#[trigger] assets[k].name@, suffix)
}

/// The first asset of `assets` whose name ends with `suffix`.
fn find_asset(assets: &Vec<ReleaseAsset>, suffix: &str) -> (r: Option<usize>)
    ensures
        match r {
            Some(k) => is_first_asset_match(assets@, suffix@, k as int),
            None => !some_asset_matches(assets@, suffix@),
        },
{
    let n = assets.len();
    let mut i: usize = 0;
    while i < n
        invariant
            n == assets.len(),
            i <= n,
            forall|m: int| 0 <= m < i ==> !spec_ends_with(#[trigger] assets@[m].name@, suffix@),
        decreases n - i,
    {
        if str_ends_with(assets[i].name.as_str(), suffix) {
            return Some(i);
        }
        i += 1;
    }
    None
}

/// `plan` is exactly what the version-check flow owes for the selected
/// release `rel`: URLs of the first matching update and signature
/// assets, the canonicalized publish date, the digits-and-dots version
/// string, and the sanitized notes.
pub open spec fn plan_matches_release(rel: Release, target: Seq<char>, plan: UpdatePlan) -> bool {
    &&& exists|k: int|
        #[trigger] is_first_asset_match(rel.assets@, spec_update_suffixes(target).0, k)
            && plan.download_url@ == rel.assets@[k].download_url@
    &&& exists|k: int|
        #[trigger] is_first_asset_match(rel.assets@, spec_update_suffixes(target).1, k)
            && plan.signature_url@ == rel.assets@[k].download_url@
    &&& rfc3339_canon(rel.published_at@) is Some
    &&& plan.pub_date@ == rfc3339_canon(rel.published_at@)->0
    &&& plan.version@ == keep_digits_dots(rel.tag@)
    &&& plan.notes@ == spec_sanitize(rel.notes@)
}

/// Exactly when each error of the version-check flow is returned, in
/// the order the checks run: no differing tag, unrecognized target,
/// missing update asset, unparsable publish date, missing signature
/// asset.
pub open spec fn plan_update_error(
    rels: Seq<Release>,
    target: Seq<char>,
    cur: Seq<char>,
    e: UpdateError,
) -> bool {
    match e {
        UpdateError::NoNewRelease => all_tags_equal(rels, cur),
        UpdateError::InvalidTarget => !all_tags_equal(rels, cur) && !is_supported_target(target),
        UpdateError::NoMatchingAsset(kind) => {
            &&& !all_tags_equal(rels, cur)
            &&& is_supported_target(target)
            &&& exists|i: int|
                #[trigger] is_first_differing(rels, cur, i) && if kind == AssetKind::Update {
                    !some_asset_matches(rels[i].assets@, spec_update_suffixes(target).0)
                } else if kind == AssetKind::Signature {
                    &&& some_asset_matches(rels[i].assets@, spec_update_suffixes(target).0)
                    &&& rfc3339_canon(rels[i].published_at@) is Some
                    &&& !some_asset_matches(rels[i].assets@, spec_update_suffixes(target).1)
                } else {
                    false
                }
        },
        UpdateError::DateUnparsable => {
            &&& !all_tags_equal(rels, cur)
            &&& is_supported_target(target)
            &&& exists|i: int|
                #[trigger] is_first_differing(rels, cur, i) && some_asset_matches(
                    rels[i].assets@,
                    spec_update_suffixes(target).0,
                ) && rfc3339_canon(rels[i].published_at@) is None
        },
        _ => false,
    }
}

/// The version-check flow over an already-fetched release list: selects
/// the first release whose tag differs from the client's current
/// version and builds the response data for it.  The caller fetches the
/// signature body from `signature_url` and finishes with
/// `complete_update`.
pub fn plan_update(
    releases: &Vec<Release>,
    target: &str,
    arch: &str,
    current_version: &str,
) -> (r: Result<UpdatePlan, UpdateError>)
    ensures
        match r {
            Ok(plan) => !all_tags_equal(releases@, current_version@) && is_supported_target(
                target@,
            ) && exists|i: int|
                #[trigger] is_first_differing(releases@, current_version@, i)
                    && plan_matches_release(releases@[i], target@, plan),
            Err(e) => plan_update_error(releases@, target@, current_version@, e),
        },
{
    let idx = match next_release_index(releases, current_version) {
        Some(i) => i,
        None => {
            return Err(UpdateError::NoNewRelease);
        },
    };
    let (artifact_suffix, signature_suffix) = update_suffixes(target, arch);
    if artifact_suffix.as_str().is_empty() {
        return Err(UpdateError::InvalidTarget);
    }
    let release = &releases[idx];
    let update_k = match find_asset(&release.assets, artifact_suffix.as_str()) {
        Some(k) => k,
        None => {
            return Err(UpdateError::NoMatchingAsset(AssetKind::Update));
        },
    };
    let pub_date = match canonicalize_rfc3339(release.published_at.as_str()) {
        Some(d) => d,
        None => {
            return Err(UpdateError::DateUnparsable);
        },
    };
    let signature_k = match find_asset(&release.assets, signature_suffix.as_str()) {
        Some(k) => k,
        None => {
            return Err(UpdateError::NoMatchingAsset(AssetKind::Signature));
        },
    };
    let version = extract_version(release.tag.as_str());
    let notes = sanitize(release.notes.as_str());
    let plan = UpdatePlan {
        version,
        pub_date,
        download_url: release.assets[update_k].download_url.clone(),
        signature_url: release.assets[signature_k].download_url.clone(),
        notes,
    };
    assert(is_first_differing(releases@, current_version@, idx as int));
    assert(plan_matches_release(releases@[idx as int], target@, plan));
    Ok(plan)
}

/// Packs a finished plan and the fetched signature body into the
/// version-check response.
pub fn complete_update(plan: UpdatePlan, signature: String) -> (r: ResolvedUpdate)
    ensures
        r.version@ == plan.version@,
        r.pub_date@ == plan.pub_date@,
        r.download_url@ == plan.download_url@,
        r.signature@ == signature@,
        r.notes@ == plan.notes@,
{
    ResolvedUpdate {
        version: plan.version,
        pub_date: plan.pub_date,
        download_url: plan.download_url,
        signature,
        notes: plan.notes,
    }
}

/// Exactly when each error of the download-redirect flow is returned,
/// in the order the checks run: unrecognized target, empty list,
/// missing installer asset, unparsable publish date of the first listed
/// release.
pub open spec fn plan_download_error(rels: Seq<Release>, target: Seq<char>, e: UpdateError) -> bool {
    match e {
        UpdateError::InvalidTarget => !is_supported_target(target),
        UpdateError::NoNewRelease => is_supported_target(target) && rels.len() == 0,
        UpdateError::NoMatchingAsset(kind) => {
            &&& kind == AssetKind::Install
            &&& is_supported_target(target)
            &&& rels.len() > 0
            &&& exists|i: int|
                #[trigger] is_first_max_tag(rels, i) && !some_asset_matches(
                    rels[i].assets@,
                    spec_install_suffix(target),
                )
        },
        UpdateError::DateUnparsable => {
            &&& is_supported_target(target)
            &&& rels.len() > 0
            &&& exists|i: int|
                #[trigger] is_first_max_tag(rels, i) && some_asset_matches(
                    rels[i].assets@,
                    spec_install_suffix(target),
                )
            &&& rfc3339_canon(rels[0].published_at@) is None
        },
        _ => false,
    }
}

/// The download-redirect flow over an already-fetched release list:
/// picks the release with the greatest semantic version, matches the
/// installer suffix, and dates the bumped download total from the first
/// listed release's publish time.
pub fn plan_download(releases: &Vec<Release>, target: &str, arch: &str) -> (r: Result<
    DownloadPlan,
    UpdateError,
>)
    ensures
        match r {
            Ok(plan) => {
                &&& is_supported_target(target@)
                &&& releases@.len() > 0
                &&& exists|i: int|
                    #[trigger] is_first_max_tag(releases@, i) && exists|k: int|
                        #[trigger] is_first_asset_match(
                            releases@[i].assets@,
                            spec_install_suffix(target@),
                            k,
                        ) && plan.url@ == releases@[i].assets@[k].download_url@
                &&& rfc3339_canon(releases@[0].published_at@) is Some
                &&& plan.pub_date@ == rfc3339_canon(releases@[0].published_at@)->0
            },
            Err(e) => plan_download_error(releases@, target@, e),
        },
{
    let suffix = install_suffix(target, arch);
    if suffix.as_str().is_empty() {
        return Err(UpdateError::InvalidTarget);
    }
    let idx = match latest_release_index(releases) {
        Some(i) => i,
        None => {
            return Err(UpdateError::NoNewRelease);
        },
    };
    let k = match find_asset(&releases[idx].assets, suffix.as_str()) {
        Some(k) => k,
        None => {
            return Err(UpdateError::NoMatchingAsset(AssetKind::Install));
        },
    };
    let pub_date = match canonicalize_rfc3339(releases[0].published_at.as_str()) {
        Some(d) => d,
        None => {
            return Err(UpdateError::DateUnparsable);
        },
    };
    let plan = DownloadPlan { url: releases[idx].assets[k].download_url.clone(), pub_date };
    assert(is_first_max_tag(releases@, idx as int));
    assert(is_first_asset_match(
        releases@[idx as int].assets@,
        spec_install_suffix(target@),
        k as int,
    ));
    Ok(plan)
}

/// The refreshed total-downloads record for the total-downloads
/// endpoint, derived from a freshly fetched release list and dated from
/// the first listed release's publish timestamp as reported upstream.
pub fn snapshot_total(releases: &Vec<Release>) -> (r: DownloadTotal)
    requires
        releases@.len() > 0,
    ensures
        r.total == sat64(release_sum(releases@)),
        r.captured_at@ == releases@[0].published_at@,
{
    DownloadTotal { total: total_downloads(releases), captured_at: releases[0].published_at.clone() }
}

/// One more download recorded on a still-fresh cached total, dated from
/// the canonicalized publish time of the first cached release.
pub fn bumped_download_total(old_total: u64, first_published_at: &str) -> (r: Result<
    DownloadTotal,
    UpdateError,
>)
    ensures
        match r {
            Ok(t) => {
                &&& rfc3339_canon(first_published_at@) is Some
                &&& t.total == sat64(old_total + 1)
                &&& t.captured_at@ == rfc3339_canon(first_published_at@)->0
            },
            Err(e) => e == UpdateError::DateUnparsable && rfc3339_canon(first_published_at@)
                is None,
        },
{
    let captured_at = match canonicalize_rfc3339(first_published_at) {
        Some(d) => d,
        None => {
            return Err(UpdateError::DateUnparsable);
        },
    };
    let total = if old_total < u64::MAX {
        old_total + 1
    } else {
        old_total
    };
    Ok(DownloadTotal { total, captured_at })
}

/// The download total recomputed from a freshly fetched release list
/// during the redirect flow, plus the one download being served, dated
/// from the canonicalized publish time of the first listed release.
/// Both cached facts are recomputed from this same fetch, which keeps
/// them consistent with each other.
pub fn refreshed_download_total(releases: &Vec<Release>) -> (r: Result<DownloadTotal, UpdateError>)
    requires
        releases@.len() > 0,
    ensures
        match r {
            Ok(t) => {
                &&& rfc3339_canon(releases@[0].published_at@) is Some
                &&& t.total == sat64(release_sum(releases@) + 1)
                &&& t.captured_at@ == rfc3339_canon(releases@[0].published_at@)->0
            },
            Err(e) => e == UpdateError::DateUnparsable && rfc3339_canon(
                releases@[0].published_at@,
            ) is None,
        },
{
    let captured_at = match canonicalize_rfc3339(releases[0].published_at.as_str()) {
        Some(d) => d,
        None => {
            return Err(UpdateError::DateUnparsable);
        },
    };
    let sum = total_downloads(releases);
    proof {
        lemma_release_sum_nonneg(releases@);
    }
    let total = if sum < u64::MAX {
        sum + 1
    } else {
        sum
    };
    Ok(DownloadTotal { total, captured_at })
}

} // verus!
