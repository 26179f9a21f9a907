use lighty_launcher::install::{install_phases, InstallStep};
use lighty_launcher::loader::{loader_kind, LoaderKind};
use lighty_launcher::version::{join_path, Version};

#[test]
fn test_profile_directories() {
    let v = Version::new("demo", "vanilla", "", "1.7.10", "/data");
    assert_eq!(v.get_name(), "demo");
    assert_eq!(v.get_game_dir(), "/data/demo");
    assert_eq!(v.get_libraries_dir(), "/data/demo/libraries");
    assert_eq!(v.get_assets_dir(), "/data/demo/assets");
    assert_eq!(v.get_natives_dir(), "/data/demo/natives");
    assert_eq!(v.get_client_path(), "/data/demo/demo.jar");
}

#[test]
fn test_profile_name_not_ascii() {
    let v = Version::new("gaïa", "neoforge", "47.1.99", "1.20.1", "/data");
    assert_eq!(v.get_game_dir(), "/data/gaïa");
    assert_eq!(v.get_client_path(), "/data/gaïa/gaïa.jar");
}

#[test]
fn test_join_path() {
    assert_eq!(join_path("/a/b", "c/d"), "/a/b/c/d");
}

#[test]
fn test_loader_kind_dispatch() {
    assert_eq!(loader_kind("vanilla"), LoaderKind::Vanilla);
    assert_eq!(loader_kind("fabric"), LoaderKind::Fabric);
    assert_eq!(loader_kind("quilt"), LoaderKind::Quilt);
    assert_eq!(loader_kind("neoforge"), LoaderKind::NeoForge);
    assert_eq!(loader_kind("forge"), LoaderKind::Forge);
    assert_eq!(loader_kind("optifine"), LoaderKind::OptiFine);
    assert_eq!(loader_kind("rift"), LoaderKind::Unknown);
    assert_eq!(loader_kind(""), LoaderKind::Unknown);
}

#[test]
fn test_vanilla_phases_all_concurrent() {
    // The four vanilla sub-pipelines form one concurrent group.
    let phases = install_phases(LoaderKind::Vanilla);
    assert_eq!(phases.len(), 1);
    assert_eq!(
        phases[0],
        vec![InstallStep::Client, InstallStep::Libraries, InstallStep::Natives, InstallStep::Assets]
    );
}

#[test]
fn test_fabric_phases() {
    let phases = install_phases(LoaderKind::Fabric);
    assert_eq!(phases.len(), 1);
    assert!(phases[0].contains(&InstallStep::FabricLibraries));
}

#[test]
fn test_neoforge_phases_sequential() {
    let phases = install_phases(LoaderKind::NeoForge);
    assert_eq!(phases.len(), 6);
    assert_eq!(phases[4], vec![InstallStep::NeoForgeInstaller]);
    assert_eq!(phases[5], vec![InstallStep::NeoForgeLibraries]);
}

#[test]
fn test_optifine_phases_start_with_client_scrape() {
    let phases = install_phases(LoaderKind::OptiFine);
    assert_eq!(phases[0], vec![InstallStep::OptifineClient]);
}

#[test]
fn test_forge_and_unknown_are_noops() {
    assert!(install_phases(LoaderKind::Forge).is_empty());
    assert!(install_phases(LoaderKind::Unknown).is_empty());
}
