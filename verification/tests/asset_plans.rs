use lighty_launcher::assets::{asset_object_item, plan_asset_index, plan_assets, AssetObject};
use lighty_launcher::error::LauncherError;
use lighty_launcher::manifest::{AssetIndexInfo, VersionDescriptor};

fn descriptor() -> VersionDescriptor {
    VersionDescriptor {
        main_class: None,
        java_major: None,
        client: None,
        libraries: vec![],
        asset_index: None,
        legacy_assets_id: None,
    }
}

#[test]
fn test_asset_object_layout() {
    let item = asset_object_item("556b7f86d4106eb6984c8f83e13b0a0ad9e0d0bc", 1234, "/p/assets");
    assert_eq!(
        item.url,
        "https://resources.download.minecraft.net/55/556b7f86d4106eb6984c8f83e13b0a0ad9e0d0bc"
    );
    assert_eq!(
        item.path,
        "/p/assets/objects/55/556b7f86d4106eb6984c8f83e13b0a0ad9e0d0bc"
    );
    assert_eq!(item.sha1.as_deref(), Some("556b7f86d4106eb6984c8f83e13b0a0ad9e0d0bc"));
    assert_eq!(item.size, Some(1234));
}

#[test]
fn test_plan_assets() {
    let objects = vec![
        AssetObject { hash: "ab00".to_string(), size: 1 },
        AssetObject { hash: "cd11".to_string(), size: 2 },
    ];
    let plan = plan_assets(&objects, "/p/assets");
    assert_eq!(plan.len(), 2);
    assert_eq!(plan[0].path, "/p/assets/objects/ab/ab00");
    assert_eq!(plan[1].path, "/p/assets/objects/cd/cd11");
    assert_eq!(plan[1].url, "https://resources.download.minecraft.net/cd/cd11");
}

#[test]
fn test_modern_asset_index() {
    let mut d = descriptor();
    d.asset_index = Some(AssetIndexInfo {
        id: "8".to_string(),
        url: "https://piston-meta.mojang.com/v1/packages/xx/8.json".to_string(),
        sha1: "beef".to_string(),
        size: 77,
    });
    let item = plan_asset_index(&d, "/p/assets", "1.20.2").unwrap();
    assert_eq!(item.url, "https://piston-meta.mojang.com/v1/packages/xx/8.json");
    assert_eq!(item.path, "/p/assets/indexes/1.20.2.json");
    assert_eq!(item.sha1.as_deref(), Some("beef"));
    assert_eq!(item.size, Some(77));
}

#[test]
fn test_legacy_asset_index() {
    // A legacy descriptor names only an asset id: the index comes from the
    // fixed legacy packages URL, unverified.
    let mut d = descriptor();
    d.legacy_assets_id = Some("1.7.10".to_string());
    let item = plan_asset_index(&d, "/p/assets", "1.7.10").unwrap();
    assert_eq!(
        item.url,
        "https://launchermeta.mojang.com/v1/packages/1863782e33ce7b584fc45b037325a1964e095d3e/1.7.10.json"
    );
    assert_eq!(item.path, "/p/assets/indexes/1.7.10.json");
    assert!(item.sha1.is_none());
    assert!(item.size.is_none());
}

#[test]
fn test_missing_asset_index() {
    let d = descriptor();
    assert!(matches!(
        plan_asset_index(&d, "/p/assets", "1.20.2"),
        Err(LauncherError::ManifestMissingField { .. })
    ));
}
