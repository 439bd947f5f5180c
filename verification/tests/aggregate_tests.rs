use chunkvault_updater::aggregate::total_downloads;
use chunkvault_updater::model::Release;
use chunkvault_updater::model::ReleaseAsset;

fn asset(count: u64) -> ReleaseAsset {
    ReleaseAsset {
        name: "file.bin".to_string(),
        download_url: "https://example.com/file.bin".to_string(),
        download_count: count,
    }
}

fn release_with_counts(counts: &[u64]) -> Release {
    Release {
        tag: "v1.0.0".to_string(),
        published_at: "2023-01-02T03:04:05Z".to_string(),
        notes: String::new(),
        assets: counts.iter().map(|c| asset(*c)).collect(),
    }
}

#[test]
fn sums_across_releases() {
    let rels = vec![release_with_counts(&[3, 4]), release_with_counts(&[5])];
    assert_eq!(total_downloads(&rels), 12);
}

#[test]
fn empty_list_sums_to_zero() {
    let rels: Vec<Release> = Vec::new();
    assert_eq!(total_downloads(&rels), 0);
}

#[test]
fn release_without_assets_adds_nothing() {
    let rels = vec![release_with_counts(&[]), release_with_counts(&[9])];
    assert_eq!(total_downloads(&rels), 9);
}

#[test]
fn duplicate_file_names_count_twice() {
    // No per-asset deduplication: the same file under two releases is
    // counted under both.
    let rels = vec![release_with_counts(&[10]), release_with_counts(&[10])];
    assert_eq!(total_downloads(&rels), 20);
}

#[test]
fn sum_saturates_instead_of_overflowing() {
    let rels = vec![release_with_counts(&[u64::MAX, 1]), release_with_counts(&[2])];
    assert_eq!(total_downloads(&rels), u64::MAX);
}
