use lighty_launcher::error::LauncherError;
use lighty_launcher::neoforge::{
    extract_release_tag, installer_arguments, installer_outcome, neoforge_maven_base,
    neoforge_metadata_url, plan_neoforge_libraries, NeoForgeArtifact, NeoForgeLibrary,
};
use lighty_launcher::version::Version;

fn old_profile() -> Version {
    Version::new("gaia", "neoforge", "47.1.99", "1.20.1", "/data")
}

fn modern_profile() -> Version {
    Version::new("nova", "neoforge", "20.4.72", "1.20.4", "/data")
}

#[test]
fn test_old_split_across_versions() {
    // The 1.20.1 boundary is inclusive; earlier and later versions fall on
    // either side of it.
    assert!(Version::new("a", "neoforge", "1", "1.7.10", "/d").is_old_neoforge());
    assert!(Version::new("a", "neoforge", "1", "1.20.1", "/d").is_old_neoforge());
    assert!(!Version::new("a", "neoforge", "1", "1.20.4", "/d").is_old_neoforge());
    assert!(!Version::new("a", "neoforge", "1", "1.21", "/d").is_old_neoforge());
}

#[test]
fn test_is_old_neoforge() {
    assert!(old_profile().is_old_neoforge());
    assert!(!modern_profile().is_old_neoforge());
}

#[test]
fn test_version_id() {
    assert_eq!(old_profile().get_version_id(), "forge-1.20.1-47.1.99");
    assert_eq!(modern_profile().get_version_id(), "neoforge-20.4.72");
}

#[test]
fn test_installer_url_old_uses_forge_coordinates() {
    assert_eq!(
        old_profile().neoforge_installer_url(),
        "https://maven.neoforged.net/releases/net/neoforged/forge/1.20.1-47.1.99/forge-1.20.1-47.1.99-installer.jar"
    );
}

#[test]
fn test_installer_url_modern() {
    assert_eq!(
        modern_profile().neoforge_installer_url(),
        "https://maven.neoforged.net/releases/net/neoforged/neoforge/1.20.4-20.4.72/neoforge-20.4.72-installer.jar"
    );
}

#[test]
fn test_profile_json_paths() {
    let p = old_profile();
    assert_eq!(p.neoforge_profile_json_path(), "/data/gaia/forge-1.20.1-47.1.99.json");
    assert_eq!(p.neoforge_installer_path(), "/data/gaia/forge-1.20.1-47.1.99-installer.jar");
    assert_eq!(
        p.neoforge_emitted_json_path(),
        "/data/gaia/versions/forge-1.20.1-47.1.99/forge-1.20.1-47.1.99.json"
    );
}

#[test]
fn test_metadata_url() {
    assert_eq!(
        neoforge_metadata_url(true),
        "https://maven.neoforged.net/releases/net/neoforged/forge/maven-metadata.xml"
    );
    assert_eq!(
        neoforge_metadata_url(false),
        "https://maven.neoforged.net/releases/net/neoforged/neoforge/maven-metadata.xml"
    );
}

#[test]
fn test_installer_arguments() {
    let args = installer_arguments("/data/gaia/forge-1.20.1-47.1.99-installer.jar");
    assert_eq!(
        args,
        vec![
            "-jar".to_string(),
            "/data/gaia/forge-1.20.1-47.1.99-installer.jar".to_string(),
            "--fat".to_string(),
            "--fat-include-minecraft-lib".to_string(),
        ]
    );
}

#[test]
fn test_installer_outcome() {
    assert!(installer_outcome(true, Some(0)).is_ok());
    match installer_outcome(false, Some(3)) {
        Err(LauncherError::InstallerFailure { code }) => assert_eq!(code, 3),
        other => panic!("expected InstallerFailure, got {:?}", other),
    }
    match installer_outcome(false, None) {
        Err(LauncherError::InstallerFailure { code }) => assert_eq!(code, -1),
        other => panic!("expected InstallerFailure, got {:?}", other),
    }
}

#[test]
fn test_extract_release_tag() {
    let xml = "<metadata><versioning><release>20.4.72</release></versioning></metadata>";
    assert_eq!(extract_release_tag(xml).unwrap(), "20.4.72");
}

#[test]
fn test_extract_release_tag_missing() {
    assert!(extract_release_tag("<metadata></metadata>").is_err());
    assert!(extract_release_tag("<release>unterminated").is_err());
}

#[test]
fn test_plan_neoforge_libraries() {
    let libs = vec![
        NeoForgeLibrary {
            name: "net.neoforged:forge:1.20.1".to_string(),
            url: None,
            artifact: Some(NeoForgeArtifact {
                path: "net/neoforged/forge/1.20.1/forge-1.20.1.jar".to_string(),
                url: "https://maven.neoforged.net/releases/net/neoforged/forge/1.20.1/forge-1.20.1.jar".to_string(),
                sha1: Some("cafe".to_string()),
                size: Some(5),
            }),
        },
        NeoForgeLibrary { name: "org.ow2.asm:asm:9.6".to_string(), url: None, artifact: None },
    ];
    let plan = plan_neoforge_libraries(&libs, "/data/gaia/libraries", neoforge_maven_base());
    assert_eq!(plan.len(), 2);
    assert_eq!(plan[0].path, "/data/gaia/libraries/net/neoforged/forge/1.20.1/forge-1.20.1.jar");
    assert_eq!(plan[0].sha1.as_deref(), Some("cafe"));
    assert_eq!(
        plan[1].url,
        "https://maven.neoforged.net/releases/org/ow2/asm/asm/9.6/asm-9.6.jar"
    );
    assert!(plan[1].sha1.is_none());
}
