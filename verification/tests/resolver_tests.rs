use chunkvault_updater::model::Release;
use chunkvault_updater::model::ReleaseAsset;
use chunkvault_updater::resolver::bumped_download_total;
use chunkvault_updater::resolver::complete_update;
use chunkvault_updater::resolver::plan_download;
use chunkvault_updater::resolver::plan_update;
use chunkvault_updater::resolver::refreshed_download_total;
use chunkvault_updater::resolver::snapshot_total;
use chunkvault_updater::AssetKind;
use chunkvault_updater::UpdateError;

fn asset(name: &str, url: &str, count: u64) -> ReleaseAsset {
    ReleaseAsset { name: name.to_string(), download_url: url.to_string(), download_count: count }
}

fn windows_release(tag: &str, published_at: &str) -> Release {
    Release {
        tag: tag.to_string(),
        published_at: published_at.to_string(),
        notes: "### Notes\n**Fixed** a _bug_".to_string(),
        assets: vec![
            asset("app-setup.exe", "https://dl.example.com/app-setup.exe", 10),
            asset("app.nsis.zip", "https://dl.example.com/app.nsis.zip", 3),
            asset("app.nsis.zip.sig", "https://dl.example.com/app.nsis.zip.sig", 1),
        ],
    }
}

#[test]
fn version_check_happy_path() {
    let rels = vec![windows_release("v2.1.0-beta+4", "2023-01-02T03:04:05Z")];
    let plan = plan_update(&rels, "windows", "x64", "v1.0.0").unwrap();
    assert_eq!(plan.version, "2.1.04");
    assert_eq!(plan.download_url, "https://dl.example.com/app.nsis.zip");
    assert_eq!(plan.signature_url, "https://dl.example.com/app.nsis.zip.sig");
    assert_eq!(plan.notes, "\nFixed a bug");
    // The publish date comes back in chrono's canonical RFC 3339 form,
    // not as the raw upstream string.
    let expected = chrono::DateTime::parse_from_rfc3339("2023-01-02T03:04:05Z")
        .unwrap()
        .to_rfc3339();
    assert_eq!(plan.pub_date, expected);
    assert_ne!(plan.pub_date, "2023-01-02T03:04:05Z");

    let resolved = complete_update(plan, "SIGDATA".to_string());
    assert_eq!(resolved.signature, "SIGDATA");
    assert_eq!(resolved.version, "2.1.04");
}

#[test]
fn no_new_release_when_current_is_only_tag() {
    // End to end: windows/x64 with the current version equal to the one
    // cached release's tag resolves to NoNewRelease, a 404.
    let rels = vec![windows_release("v2.0.0", "2023-01-02T03:04:05Z")];
    let err = plan_update(&rels, "windows", "x64", "v2.0.0").unwrap_err();
    assert_eq!(err, UpdateError::NoNewRelease);
    assert_eq!(err.status_code(), 404);
}

#[test]
fn no_new_release_on_empty_list() {
    let rels: Vec<Release> = Vec::new();
    let err = plan_update(&rels, "windows", "x64", "v1.0.0").unwrap_err();
    assert_eq!(err, UpdateError::NoNewRelease);
}

#[test]
fn invalid_target_rejected() {
    let rels = vec![windows_release("v2.0.0", "2023-01-02T03:04:05Z")];
    let err = plan_update(&rels, "solaris", "x64", "v1.0.0").unwrap_err();
    assert_eq!(err, UpdateError::InvalidTarget);
    assert_eq!(err.status_code(), 400);
}

#[test]
fn missing_update_asset_reported() {
    let mut rel = windows_release("v2.0.0", "2023-01-02T03:04:05Z");
    rel.assets.retain(|a| !a.name.ends_with(".nsis.zip"));
    let err = plan_update(&vec![rel], "windows", "x64", "v1.0.0").unwrap_err();
    assert_eq!(err, UpdateError::NoMatchingAsset(AssetKind::Update));
    assert_eq!(err.status_code(), 404);
}

#[test]
fn missing_signature_asset_reported() {
    let mut rel = windows_release("v2.0.0", "2023-01-02T03:04:05Z");
    rel.assets.retain(|a| !a.name.ends_with(".sig"));
    let err = plan_update(&vec![rel], "windows", "x64", "v1.0.0").unwrap_err();
    assert_eq!(err, UpdateError::NoMatchingAsset(AssetKind::Signature));
}

#[test]
fn unparsable_publish_date_reported() {
    let rels = vec![windows_release("v2.0.0", "yesterday")];
    let err = plan_update(&rels, "windows", "x64", "v1.0.0").unwrap_err();
    assert_eq!(err, UpdateError::DateUnparsable);
    assert_eq!(err.status_code(), 500);
}

#[test]
fn update_picks_first_differing_release() {
    let rels = vec![
        windows_release("v3.0.0", "2023-03-01T00:00:00Z"),
        windows_release("v2.0.0", "2023-02-01T00:00:00Z"),
    ];
    let plan = plan_update(&rels, "windows", "x64", "v2.0.0").unwrap();
    assert_eq!(plan.version, "3.0.0");
}

#[test]
fn download_happy_path_uses_greatest_version() {
    let rels = vec![
        windows_release("v1.0.0", "2023-01-01T00:00:00Z"),
        windows_release("v1.2.0", "2023-02-01T00:00:00Z"),
        windows_release("v0.9.0", "2023-03-01T00:00:00Z"),
    ];
    let plan = plan_download(&rels, "windows", "x64").unwrap();
    // All three releases carry the same asset names; the URL proves the
    // v1.2.0 entry was chosen only through its matching installer name.
    assert_eq!(plan.url, "https://dl.example.com/app-setup.exe");
    let expected = chrono::DateTime::parse_from_rfc3339("2023-01-01T00:00:00Z")
        .unwrap()
        .to_rfc3339();
    assert_eq!(plan.pub_date, expected);
}

#[test]
fn download_invalid_target_rejected() {
    let rels = vec![windows_release("v1.0.0", "2023-01-01T00:00:00Z")];
    let err = plan_download(&rels, "beos", "x64").unwrap_err();
    assert_eq!(err, UpdateError::InvalidTarget);
}

#[test]
fn download_empty_list_reported() {
    let rels: Vec<Release> = Vec::new();
    let err = plan_download(&rels, "windows", "x64").unwrap_err();
    assert_eq!(err, UpdateError::NoNewRelease);
    assert_eq!(err.status_code(), 404);
}

#[test]
fn download_missing_installer_reported() {
    let mut rel = windows_release("v1.0.0", "2023-01-01T00:00:00Z");
    rel.assets.retain(|a| !a.name.ends_with("-setup.exe"));
    let err = plan_download(&vec![rel], "windows", "x64").unwrap_err();
    assert_eq!(err, UpdateError::NoMatchingAsset(AssetKind::Install));
}

#[test]
fn download_unparsable_first_date_reported() {
    let rels = vec![windows_release("v1.0.0", "not a date")];
    let err = plan_download(&rels, "windows", "x64").unwrap_err();
    assert_eq!(err, UpdateError::DateUnparsable);
}

#[test]
fn snapshot_total_keeps_raw_first_date() {
    let rels = vec![
        windows_release("v1.0.0", "2023-01-02T03:04:05Z"),
        windows_release("v0.9.0", "2022-01-01T00:00:00Z"),
    ];
    let t = snapshot_total(&rels);
    assert_eq!(t.total, 28);
    assert_eq!(t.captured_at, "2023-01-02T03:04:05Z");
}

#[test]
fn bumped_total_increments_and_canonicalizes() {
    let t = bumped_download_total(41, "2023-01-02T03:04:05Z").unwrap();
    assert_eq!(t.total, 42);
    let expected = chrono::DateTime::parse_from_rfc3339("2023-01-02T03:04:05Z")
        .unwrap()
        .to_rfc3339();
    assert_eq!(t.captured_at, expected);
}

#[test]
fn bumped_total_rejects_bad_date() {
    let err = bumped_download_total(41, "???").unwrap_err();
    assert_eq!(err, UpdateError::DateUnparsable);
}

#[test]
fn bumped_total_saturates() {
    let t = bumped_download_total(u64::MAX, "2023-01-02T03:04:05Z").unwrap();
    assert_eq!(t.total, u64::MAX);
}

#[test]
fn refreshed_total_counts_current_download() {
    let rels = vec![
        windows_release("v1.0.0", "2023-01-02T03:04:05Z"),
        windows_release("v0.9.0", "2022-01-01T00:00:00Z"),
    ];
    let t = refreshed_download_total(&rels).unwrap();
    // 2 * (10 + 3 + 1) asset downloads plus the one being served.
    assert_eq!(t.total, 29);
}

#[test]
fn messages_mirror_the_boundary_texts() {
    assert_eq!(UpdateError::NoNewRelease.message(), "No new release found");
    assert_eq!(UpdateError::InvalidTarget.message(), "Invalid target");
    assert_eq!(UpdateError::NoMatchingAsset(AssetKind::Update).message(), "No update asset found");
    assert_eq!(
        UpdateError::NoMatchingAsset(AssetKind::Signature).message(),
        "No signature asset found"
    );
    assert_eq!(
        UpdateError::NoMatchingAsset(AssetKind::Install).message(),
        "No asset found for target"
    );
    assert_eq!(UpdateError::DateUnparsable.message(), "Failed to parse published date");
    assert_eq!(UpdateError::UpstreamFetchFailed.message(), "Failed to fetch releases");
}

#[test]
fn status_codes_cover_all_error_kinds() {
    assert_eq!(UpdateError::MissingParameter.status_code(), 400);
    assert_eq!(UpdateError::InvalidTarget.status_code(), 400);
    assert_eq!(UpdateError::NoNewRelease.status_code(), 404);
    assert_eq!(UpdateError::NoMatchingAsset(AssetKind::Update).status_code(), 404);
    assert_eq!(UpdateError::NoMatchingAsset(AssetKind::Signature).status_code(), 404);
    assert_eq!(UpdateError::NoMatchingAsset(AssetKind::Install).status_code(), 404);
    assert_eq!(UpdateError::UpstreamFetchFailed.status_code(), 500);
    assert_eq!(UpdateError::DateUnparsable.status_code(), 500);
    assert_eq!(UpdateError::CacheUnavailable.status_code(), 500);
}
