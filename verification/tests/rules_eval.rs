use lighty_launcher::rules::{evaluate_rules, should_download_library, Rule, RuleAction};

fn allow_all() -> Rule {
    Rule { action: RuleAction::Allow, os_name: None }
}

fn disallow_on(os: &str) -> Rule {
    Rule { action: RuleAction::Disallow, os_name: Some(os.to_string()) }
}

fn allow_on(os: &str) -> Rule {
    Rule { action: RuleAction::Allow, os_name: Some(os.to_string()) }
}

#[test]
fn test_no_rules_downloads() {
    assert!(should_download_library(&None, "linux"));
    assert!(should_download_library(&None, "windows"));
}

#[test]
fn test_empty_rules_disallow() {
    assert!(!evaluate_rules(&vec![], "linux"));
}

#[test]
fn test_allow_everywhere() {
    let rules = vec![allow_all()];
    assert!(evaluate_rules(&rules, "windows"));
    assert!(evaluate_rules(&rules, "linux"));
    assert!(evaluate_rules(&rules, "osx"));
}

#[test]
fn test_osx_only_disallowed_elsewhere() {
    // The common upstream shape: allow everywhere, then disallow on OSX.
    let rules = vec![allow_all(), disallow_on("osx")];
    assert!(evaluate_rules(&rules, "windows"));
    assert!(evaluate_rules(&rules, "linux"));
    assert!(!evaluate_rules(&rules, "osx"));
}

#[test]
fn test_last_matching_rule_wins() {
    let rules = vec![disallow_on("linux"), allow_on("linux")];
    assert!(evaluate_rules(&rules, "linux"));
    let rules2 = vec![allow_on("linux"), disallow_on("linux")];
    assert!(!evaluate_rules(&rules2, "linux"));
}

#[test]
fn test_no_matching_rule_disallows() {
    let rules = vec![allow_on("osx")];
    assert!(!evaluate_rules(&rules, "windows"));
    assert!(!evaluate_rules(&rules, "linux"));
    assert!(evaluate_rules(&rules, "osx"));
}

#[test]
fn test_unnamed_os_rule_never_matches() {
    // A rule whose OS block carried no name is stored with an empty name.
    let rules = vec![allow_on("")];
    assert!(!evaluate_rules(&rules, "windows"));
}
