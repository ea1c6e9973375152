use std::cmp::Ordering;

use maa_bridge::version::{
    compare_version, is_nightly_version, is_std_version, select_nightly_release, select_ota_asset,
    split_version, update_available, Asset, RepoRelease,
};

fn asset_named(name: &str) -> Asset {
    Asset {
        url: String::new(),
        id: 0,
        node_id: String::new(),
        name: name.to_string(),
        label: String::new(),
        content_type: String::new(),
        state: String::new(),
        size: 0,
        download_count: 0,
        created_at: String::new(),
        updated_at: String::new(),
        browser_download_url: String::new(),
    }
}

#[test]
fn test_compare_version() {
    let a = "v4.19.1";
    let b = "v4.19.2";
    assert_eq!(compare_version(a, b), Ordering::Less);
}

#[test]
fn test_is_std_version() {
    let version = "0.1.0";
    assert!(is_std_version(version));
}

#[test]
fn compare_version_cases() {
    assert_eq!(compare_version("v4.19.2", "v4.19.1"), Ordering::Greater);
    assert_eq!(compare_version("v4.19.1", "v4.19.1"), Ordering::Equal);
    assert_eq!(compare_version("v4.19.1", "v4.20.0"), Ordering::Less);
    // A pre-release compares by its numeric stand-in: beta maps to two.
    assert_eq!(compare_version("v4.19.1-beta.3", "v4.19.1-rc.1"), Ordering::Less);
    // A plain version is a prefix of the same version with a pre-release
    // part, so the longer one wins.
    assert_eq!(compare_version("v4.19.1", "v4.19.1-beta.3"), Ordering::Less);
}

#[test]
fn split_version_cases() {
    assert_eq!(split_version("v4.19.1"), Some(vec![4, 19, 1]));
    assert_eq!(split_version("4.19.1"), Some(vec![4, 19, 1]));
    assert_eq!(split_version("v4.19.1-beta.3"), Some(vec![4, 19, 1, 2]));
    assert_eq!(split_version("v4.19.1-alpha.7"), Some(vec![4, 19, 1, 1]));
    assert_eq!(split_version("v4.19.1-rc.2"), Some(vec![4, 19, 1, 3]));
    // A pre-release part with a single dot-segment cannot be split.
    assert_eq!(split_version("v4.19.1-beta"), None);
    // A component that is not a number cannot be parsed.
    assert_eq!(split_version("vx.19.1"), None);
    // A component past the range of the parser cannot be parsed.
    assert_eq!(split_version("v4.99999999999.1"), None);
}

#[test]
fn nightly_version_cases() {
    assert!(is_nightly_version("v4.19.2-beta.1.d004.g12345678"));
    assert!(!is_nightly_version("v4.19.1"));
    assert!(!is_nightly_version("v4.19.1-beta.3"));
    // Without a dash it is never a nightly, whatever the last segment.
    assert!(!is_nightly_version("v4.19.g1234567"));
}

#[test]
fn std_version_cases() {
    assert!(!is_std_version("DEBUG VERSION"));
    assert!(!is_std_version("c87654321"));
    assert!(!is_std_version("20230403"));
    assert!(!is_std_version("v4.19.1-local-build"));
    assert!(!is_std_version("v4.19.2-beta.1.d004.g12345678"));
    assert!(is_std_version("v4.19.1"));
}

#[test]
fn update_available_cases() {
    assert!(update_available("v4.19.1", "v4.19.2"));
    assert!(!update_available("v4.19.2", "v4.19.2"));
    assert!(!update_available("v4.19.3", "v4.19.2"));
}

#[test]
fn select_ota_asset_picks_first_match() {
    let assets = vec![
        asset_named("MAA-v4.19.2-win-x64.zip"),
        asset_named("MAAComponent-OTA-v4.19.1_v4.19.2-win-x64.zip"),
        asset_named("MAAComponent-OTA-v4.19.1_v4.19.2-win-arm64.zip"),
        asset_named("MAA-v4.19.2-linux-x86_64.tar.gz"),
    ];
    assert_eq!(select_ota_asset("v4.19.1", "v4.19.2", &assets), Some(1));
    assert_eq!(select_ota_asset("v4.18.0", "v4.19.2", &assets), None);
}

#[test]
fn select_nightly_release_skips_standard_tags() {
    let releases = vec![
        RepoRelease { tag_name: "v4.19.2".to_string(), assets: vec![] },
        RepoRelease {
            tag_name: "v4.19.2-beta.1.d004.g12345678".to_string(),
            assets: vec![],
        },
    ];
    assert_eq!(select_nightly_release(&releases), Some(1));
    let only_std = vec![RepoRelease { tag_name: "v4.19.2".to_string(), assets: vec![] }];
    assert_eq!(select_nightly_release(&only_std), None);
}
