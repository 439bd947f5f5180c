//! DownloadAggregator: sums every asset's download counter across every
//! release.  A file listed under two releases is counted twice, matching
//! upstream's own counters.  The running sum saturates at `u64::MAX`
//! instead of overflowing.

use vstd::prelude::*;
use crate::model::Release;
use crate::model::ReleaseAsset;

verus! {

/// Mathematical sum of the download counters of `assets`.
pub open spec fn asset_sum(assets: Seq<ReleaseAsset>) -> int
    decreases assets.len(),
{
    if assets.len() == 0 {
        0
    } else {
        assets[0].download_count + asset_sum(assets.skip(1))
    }
}

/// Mathematical sum of every asset counter across `releases`.
pub open spec fn release_sum(releases: Seq<Release>) -> int
    decreases releases.len(),
{
    if releases.len() == 0 {
        0
    } else {
        asset_sum(releases[0].assets@) + release_sum(releases.skip(1))
    }
}

/// `x` clamped into `u64`.
pub open spec fn sat64(x: int) -> int {
    if x <= u64::MAX {
        x
    } else {
        u64::MAX as int
    }
}

pub proof fn lemma_asset_sum_nonneg(assets: Seq<ReleaseAsset>)
    ensures
        asset_sum(assets) >= 0,
    decreases assets.len(),
{
    if assets.len() > 0 {
        lemma_asset_sum_nonneg(assets.skip(1));
    }
}

pub proof fn lemma_release_sum_nonneg(releases: Seq<Release>)
    ensures
        release_sum(releases) >= 0,
    decreases releases.len(),
{
    if releases.len() > 0 {
        lemma_asset_sum_nonneg(releases[0].assets@);
        lemma_release_sum_nonneg(releases.skip(1));
    }
}

/// Prefix decomposition: the sum over `assets` is the sum of the first
/// `i` counters plus the sum of the rest.
proof fn lemma_asset_sum_split(assets: Seq<ReleaseAsset>, i: int)
    requires
        0 <= i < assets.len(),
    ensures
        asset_sum(assets.skip(i)) == assets[i].download_count + asset_sum(assets.skip(i + 1)),
    decreases assets.len(),
{
    if i > 0 {
        lemma_asset_sum_split(assets.skip(1), i - 1);
        assert(assets.skip(1).skip(i - 1) =~= assets.skip(i));
        assert(assets.skip(1).skip(i) =~= assets.skip(i + 1));
    } else {
        assert(assets.skip(0) =~= assets);
    }
}

proof fn lemma_release_sum_split(releases: Seq<Release>, i: int)
    requires
        0 <= i < releases.len(),
    ensures
        release_sum(releases.skip(i)) == asset_sum(releases[i].assets@) + release_sum(
            releases.skip(i + 1),
        ),
    decreases releases.len(),
{
    if i > 0 {
        lemma_release_sum_split(releases.skip(1), i - 1);
        assert(releases.skip(1).skip(i - 1) =~= releases.skip(i));
        assert(releases.skip(1).skip(i) =~= releases.skip(i + 1));
    } else {
        assert(releases.skip(0) =~= releases);
    }
}

/// Adds `c` to the saturating accumulator `acc` that stands for the
/// mathematical partial sum `p`.
fn sat_add(acc: u64, c: u64, Ghost(p): Ghost<int>) -> (r: u64)
    requires
        acc == sat64(p),
        p >= 0,
    ensures
        r == sat64(p + c),
{
    if c <= u64::MAX - acc {
        acc + c
    } else {
        u64::MAX
    }
}

/// Sum of the download counters of the assets of one release,
/// saturating at `u64::MAX`.
fn release_downloads(release: &Release) -> (r: u64)
    ensures
        r == sat64(asset_sum(release.assets@)),
{
    let n = release.assets.len();
    let mut acc: u64 = 0;
    let mut i: usize = 0;
    proof {
        lemma_asset_sum_nonneg(release.assets@);
        assert(release.assets@.skip(0) =~= release.assets@);
    }
    while i < n
        invariant
            n == release.assets.len(),
            i <= n,
            acc == sat64(asset_sum(release.assets@) - asset_sum(release.assets@.skip(i as int))),
            asset_sum(release.assets@) - asset_sum(release.assets@.skip(i as int)) >= 0,
            asset_sum(release.assets@.skip(i as int)) >= 0,
        decreases n - i,
    {
        let ghost prefix = asset_sum(release.assets@) - asset_sum(release.assets@.skip(i as int));
        proof {
            lemma_asset_sum_split(release.assets@, i as int);
            lemma_asset_sum_nonneg(release.assets@.skip(i + 1));
        }
        acc = sat_add(acc, release.assets[i].download_count, Ghost(prefix));
        i += 1;
    }
    assert(release.assets@.skip(n as int) =~= Seq::<ReleaseAsset>::empty());
    acc
}

/// Sum of every asset's download counter across every release in the
/// list, zero for an empty list, saturating at `u64::MAX`.
pub fn total_downloads(releases: &Vec<Release>) -> (r: u64)
    ensures
        r == sat64(release_sum(releases@)),
{
    let n = releases.len();
    let mut acc: u64 = 0;
    let mut i: usize = 0;
    proof {
        lemma_release_sum_nonneg(releases@);
        assert(releases@.skip(0) =~= releases@);
    }
    while i < n
        invariant
            n == releases.len(),
            i <= n,
            acc == sat64(release_sum(releases@) - release_sum(releases@.skip(i as int))),
            release_sum(releases@) - release_sum(releases@.skip(i as int)) >= 0,
            release_sum(releases@.skip(i as int)) >= 0,
        decreases n - i,
    {
        let ghost prefix = release_sum(releases@) - release_sum(releases@.skip(i as int));
        proof {
            lemma_release_sum_split(releases@, i as int);
            lemma_release_sum_nonneg(releases@.skip(i + 1));
            lemma_asset_sum_nonneg(releases@[i as int].assets@);
        }
        let d = release_downloads(&releases[i]);
        // Folding a saturated per-release sum into the saturated running
        // sum still equals the clamped mathematical total.
        if d <= u64::MAX - acc {
            acc = acc + d;
        } else {
            acc = u64::MAX;
        }
        i += 1;
    }
    assert(releases@.skip(n as int) =~= Seq::<Release>::empty());
    acc
}

} // verus!
