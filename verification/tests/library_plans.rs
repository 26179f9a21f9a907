use lighty_launcher::launch::{
    build_arguments, build_classpath, libraries_walk_decision, WalkDecision,
};
use lighty_launcher::libraries::plan_library_downloads;
use lighty_launcher::manifest::{ArtifactInfo, LibraryInfo};
use lighty_launcher::maven::{coordinate_rel_path, plan_coordinate_downloads, CoordLibrary};
use lighty_launcher::rules::{Rule, RuleAction};

fn lib(name: &str, artifact: Option<ArtifactInfo>, rules: Option<Vec<Rule>>) -> LibraryInfo {
    LibraryInfo {
        name: name.to_string(),
        artifact,
        classifiers: vec![],
        natives: vec![],
        rules,
        extract_excludes: vec![],
    }
}

fn artifact(path: &str, url: &str, sha1: &str, size: u64) -> ArtifactInfo {
    ArtifactInfo { path: path.to_string(), url: url.to_string(), sha1: sha1.to_string(), size }
}

#[test]
fn test_plan_library_downloads() {
    let libs = vec![
        lib("a:b:1", Some(artifact("a/b/1/b-1.jar", "https://libs/b-1.jar", "abc", 10)), None),
        // Skipped: rules disallow this OS.
        lib(
            "c:d:2",
            Some(artifact("c/d/2/d-2.jar", "https://libs/d-2.jar", "def", 20)),
            Some(vec![Rule { action: RuleAction::Allow, os_name: Some("osx".to_string()) }]),
        ),
        // Skipped: no main artifact.
        lib("e:f:3", None, None),
    ];
    let plan = plan_library_downloads(&libs, "linux", "/data/demo/libraries");
    assert_eq!(plan.len(), 1);
    assert_eq!(plan[0].url, "https://libs/b-1.jar");
    assert_eq!(plan[0].path, "/data/demo/libraries/a/b/1/b-1.jar");
    assert_eq!(plan[0].sha1.as_deref(), Some("abc"));
    assert_eq!(plan[0].size, Some(10));
}

#[test]
fn test_coordinate_rel_path() {
    assert_eq!(
        coordinate_rel_path("net.fabricmc:fabric-loader:0.15.10").unwrap(),
        "net/fabricmc/fabric-loader/0.15.10/fabric-loader-0.15.10.jar"
    );
    assert!(coordinate_rel_path("only:two").is_none());
    assert!(coordinate_rel_path("a:b:c:d").is_none());
}

#[test]
fn test_plan_coordinate_downloads_uses_default_base() {
    let libs = vec![
        CoordLibrary { name: "net.fabricmc:fabric-loader:0.15.10".to_string(), url: None },
        CoordLibrary { name: "broken".to_string(), url: None },
        CoordLibrary {
            name: "org.ow2.asm:asm:9.6".to_string(),
            url: Some("https://maven.example.org/".to_string()),
        },
    ];
    let plan = plan_coordinate_downloads(&libs, "/p/libraries", "https://maven.fabricmc.net/");
    assert_eq!(plan.len(), 2);
    assert_eq!(
        plan[0].url,
        "https://maven.fabricmc.net/net/fabricmc/fabric-loader/0.15.10/fabric-loader-0.15.10.jar"
    );
    assert_eq!(
        plan[0].path,
        "/p/libraries/net/fabricmc/fabric-loader/0.15.10/fabric-loader-0.15.10.jar"
    );
    assert!(plan[0].sha1.is_none());
    assert!(plan[0].size.is_none());
    assert_eq!(plan[1].url, "https://maven.example.org/org/ow2/asm/asm/9.6/asm-9.6.jar");
}

#[test]
fn test_build_classpath() {
    let jars = vec!["/l/a.jar".to_string(), "/l/b.jar".to_string()];
    assert_eq!(build_classpath(&jars, "/p/demo.jar", ';'), "/l/a.jar;/l/b.jar;/p/demo.jar");
    assert_eq!(build_classpath(&jars, "/p/demo.jar", ':'), "/l/a.jar:/l/b.jar:/p/demo.jar");
    assert_eq!(build_classpath(&vec![], "/p/demo.jar", ':'), "/p/demo.jar");
}

#[test]
fn test_classpath_keeps_entries_in_any_order() {
    let a = vec!["x.jar".to_string(), "y.jar".to_string(), "z.jar".to_string()];
    let b = vec!["z.jar".to_string(), "x.jar".to_string(), "y.jar".to_string()];
    let cp_a = build_classpath(&a, "c.jar", ':');
    let cp_b = build_classpath(&b, "c.jar", ':');
    let mut ea: Vec<&str> = cp_a.split(':').collect();
    let mut eb: Vec<&str> = cp_b.split(':').collect();
    ea.sort();
    eb.sort();
    assert_eq!(ea, eb);
}

#[test]
fn test_libraries_walk_decision() {
    assert_eq!(libraries_walk_decision(3, false), WalkDecision::UseJars);
    assert_eq!(libraries_walk_decision(3, true), WalkDecision::UseJars);
    assert_eq!(libraries_walk_decision(0, false), WalkDecision::RetryDownload);
    assert_eq!(libraries_walk_decision(0, true), WalkDecision::Fail);
}

#[test]
fn test_build_arguments_vector() {
    let args = build_arguments(
        "/p/natives",
        "/l/a.jar:/p/demo.jar",
        "net.minecraft.client.Main",
        "Player",
        "1.20.2",
        "/p",
        "/p/assets",
        "1.20.2",
        "11111111-2222-3333-4444-555555555555",
        "token-value",
    );
    let expected = vec![
        "-Xms1024M",
        "-Xmx2048M",
        "-Djava.library.path=/p/natives",
        "-Dfabric.development=false",
        "-cp",
        "/l/a.jar:/p/demo.jar",
        "net.minecraft.client.Main",
        "--username",
        "Player",
        "--version",
        "1.20.2",
        "--gameDir",
        "/p",
        "--assetsDir",
        "/p/assets",
        "--assetIndex",
        "1.20.2",
        "--uuid",
        "11111111-2222-3333-4444-555555555555",
        "--accessToken",
        "token-value",
        "--userProperties",
        "{}",
    ];
    assert_eq!(args, expected);
}
