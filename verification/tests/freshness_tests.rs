use chunkvault_updater::freshness::is_fresh;
use chunkvault_updater::freshness::is_fresh_epoch;
use chunkvault_updater::freshness::snapshot_is_fresh;
use chunkvault_updater::freshness::total_is_fresh;
use chunkvault_updater::freshness::FRESHNESS_WINDOW_SECS;
use chunkvault_updater::model::DownloadTotal;
use chunkvault_updater::model::Release;
use chunkvault_updater::model::ReleaseSnapshot;

const EPOCH_ZERO: &str = "1970-01-01T00:00:00Z";

#[test]
fn fresh_just_inside_window() {
    assert!(is_fresh(EPOCH_ZERO, 299));
}

#[test]
fn stale_just_outside_window() {
    assert!(!is_fresh(EPOCH_ZERO, 301));
}

#[test]
fn stale_exactly_at_window() {
    // The comparison is strict: captured + window must exceed now.
    assert!(!is_fresh(EPOCH_ZERO, 300));
}

#[test]
fn unparsable_capture_time_is_never_fresh() {
    assert!(!is_fresh("not-a-date", 0));
    assert!(!is_fresh("", 0));
    // Not fresh even for a clock far in the past.
    assert!(!is_fresh("garbage", i64::MIN + 1));
}

#[test]
fn window_is_five_minutes() {
    assert_eq!(FRESHNESS_WINDOW_SECS, 300);
}

#[test]
fn is_fresh_agrees_with_chrono_epoch() {
    let captured = "2023-06-15T12:00:00+02:00";
    let epoch = chrono::DateTime::parse_from_rfc3339(captured).unwrap().timestamp();
    assert!(is_fresh(captured, epoch + 299));
    assert!(!is_fresh(captured, epoch + 300));
}

#[test]
fn epoch_comparison_is_exact() {
    assert!(is_fresh_epoch(100, 399, 300));
    assert!(!is_fresh_epoch(100, 400, 300));
    // No overflow at the extremes.
    assert!(is_fresh_epoch(i64::MAX, 0, i64::MAX));
    assert!(!is_fresh_epoch(i64::MIN, 0, 300));
}

#[test]
fn absent_snapshot_is_never_fresh() {
    assert!(!snapshot_is_fresh(&None, 0));
    assert!(!total_is_fresh(&None, 0));
}

#[test]
fn present_snapshot_follows_capture_time() {
    let snap = ReleaseSnapshot { releases: Vec::<Release>::new(), captured_at: EPOCH_ZERO.to_string() };
    assert!(snapshot_is_fresh(&Some(snap), 299));
    let total = DownloadTotal { total: 7, captured_at: EPOCH_ZERO.to_string() };
    assert!(!total_is_fresh(&Some(total), 301));
}
