use lighty_launcher::error::LauncherError;
use lighty_launcher::fabric::{
    fabric_loader_index_url, fabric_maven_base, fabric_profile_url, latest_loader_version,
};
use lighty_launcher::quilt::{quilt_loader_index_url, quilt_maven_base, quilt_profile_url};

#[test]
fn test_fabric_profile_url() {
    assert_eq!(
        fabric_profile_url("1.20.2", "0.15.10"),
        "https://meta.fabricmc.net/v2/versions/loader/1.20.2/0.15.10/profile/json"
    );
}

#[test]
fn test_fabric_endpoints() {
    assert_eq!(fabric_loader_index_url(), "https://meta.fabricmc.net/v2/versions/loader");
    assert_eq!(fabric_maven_base(), "https://maven.fabricmc.net/");
}

#[test]
fn test_quilt_profile_url() {
    assert_eq!(
        quilt_profile_url("1.18.2", "0.17.10"),
        "https://meta.quiltmc.org/v3/versions/loader/1.18.2/0.17.10/profile/json"
    );
}

#[test]
fn test_quilt_endpoints() {
    assert_eq!(quilt_loader_index_url(), "https://meta.quiltmc.org/v3/versions/loader");
    assert_eq!(quilt_maven_base(), "https://maven.quiltmc.org/");
}

#[test]
fn test_latest_loader_version_is_first() {
    let versions = vec!["0.15.10".to_string(), "0.15.9".to_string()];
    assert_eq!(latest_loader_version(&versions).unwrap(), "0.15.10");
}

#[test]
fn test_latest_loader_version_empty() {
    assert!(matches!(
        latest_loader_version(&vec![]),
        Err(LauncherError::ManifestMissingField { .. })
    ));
}
