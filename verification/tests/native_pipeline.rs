use lighty_launcher::manifest::{ArtifactInfo, LibraryInfo};
use lighty_launcher::natives::{arch_token, assoc_str_lookup, plan_natives, NativeAction};
use lighty_launcher::rules::{Rule, RuleAction};
use lighty_launcher::system::Architecture;

fn native_lib(template: &str, classifier: &str, path: &str, excludes: Vec<String>) -> LibraryInfo {
    LibraryInfo {
        name: "org.lwjgl:lwjgl:2.9.4".to_string(),
        artifact: None,
        classifiers: vec![(
            classifier.to_string(),
            ArtifactInfo {
                path: path.to_string(),
                url: format!("https://libs/{}", path),
                sha1: "0123".to_string(),
                size: 99,
            },
        )],
        natives: vec![("windows".to_string(), template.to_string())],
        rules: None,
        extract_excludes: excludes,
    }
}

#[test]
fn test_arch_token() {
    assert_eq!(arch_token(Architecture::X86), "32");
    assert_eq!(arch_token(Architecture::X64), "64");
    assert_eq!(arch_token(Architecture::AARCH64), "64");
}

#[test]
fn test_assoc_str_lookup_first_match() {
    let entries = vec![
        ("windows".to_string(), "natives-windows".to_string()),
        ("linux".to_string(), "natives-linux".to_string()),
        ("windows".to_string(), "shadowed".to_string()),
    ];
    assert_eq!(assoc_str_lookup(&entries, "windows").unwrap(), "natives-windows");
    assert_eq!(assoc_str_lookup(&entries, "linux").unwrap(), "natives-linux");
    assert!(assoc_str_lookup(&entries, "osx").is_none());
}

#[test]
fn test_native_step_fetch_extract_remove() {
    let lib = native_lib(
        "natives-windows-${arch}",
        "natives-windows-64",
        "org/lwjgl/lwjgl-natives-windows-64.jar",
        vec!["META-INF/".to_string()],
    );
    let actions = plan_natives(&vec![lib], "windows", Architecture::X64, "/p/natives");
    assert_eq!(actions.len(), 3);
    let target = "/p/natives/lwjgl-natives-windows-64.jar";
    match &actions[0] {
        NativeAction::Fetch(item) => {
            assert_eq!(item.path, target);
            assert_eq!(item.url, "https://libs/org/lwjgl/lwjgl-natives-windows-64.jar");
            assert_eq!(item.sha1.as_deref(), Some("0123"));
            assert_eq!(item.size, Some(99));
        },
        other => panic!("expected Fetch, got {:?}", action_name(other)),
    }
    match &actions[1] {
        NativeAction::Extract { archive, dest, excludes } => {
            assert_eq!(archive, target);
            assert_eq!(dest, "/p/natives");
            assert_eq!(excludes, &vec!["META-INF/".to_string()]);
        },
        other => panic!("expected Extract, got {:?}", action_name(other)),
    }
    // No archive survives: the fetched JAR is removed at the end.
    match &actions[2] {
        NativeAction::Remove { path } => assert_eq!(path, target),
        other => panic!("expected Remove, got {:?}", action_name(other)),
    }
}

#[test]
fn test_arch_substitution_32bit() {
    let lib = native_lib(
        "natives-windows-${arch}",
        "natives-windows-32",
        "org/lwjgl/lwjgl-natives-windows-32.jar",
        vec![],
    );
    let actions = plan_natives(&vec![lib], "windows", Architecture::X86, "/n");
    assert_eq!(actions.len(), 3);
}

#[test]
fn test_native_step_skips_other_os() {
    let lib = native_lib("natives-windows", "natives-windows", "a/b.jar", vec![]);
    let actions = plan_natives(&vec![lib], "linux", Architecture::X64, "/n");
    assert!(actions.is_empty());
}

#[test]
fn test_native_step_skips_disallowed() {
    let mut lib = native_lib("natives-windows", "natives-windows", "a/b.jar", vec![]);
    lib.rules = Some(vec![Rule { action: RuleAction::Disallow, os_name: None }]);
    let actions = plan_natives(&vec![lib], "windows", Architecture::X64, "/n");
    assert!(actions.is_empty());
}

#[test]
fn test_native_step_missing_classifier() {
    let lib = native_lib("natives-osx", "natives-windows", "a/b.jar", vec![]);
    let actions = plan_natives(&vec![lib], "windows", Architecture::X64, "/n");
    assert!(actions.is_empty());
}

#[test]
fn test_non_archive_native_is_only_fetched() {
    let lib = native_lib("natives-windows", "natives-windows", "a/b.dll", vec![]);
    let actions = plan_natives(&vec![lib], "windows", Architecture::X64, "/n");
    assert_eq!(actions.len(), 1);
    assert!(matches!(&actions[0], NativeAction::Fetch(_)));
}

fn action_name(a: &NativeAction) -> &'static str {
    match a {
        NativeAction::Fetch(_) => "Fetch",
        NativeAction::Extract { .. } => "Extract",
        NativeAction::Remove { .. } => "Remove",
    }
}
