use lighty_launcher::hosts::{flagged_hosts_lines, hosts_path, line_flagged, split_ws, tokens};

#[test]
fn test_split_ws_and_tokens() {
    let parts = split_ws("a  b\tc");
    assert_eq!(parts, vec!["a", "", "b", "c"]);
    let ts = tokens("  0.0.0.0\t mojang.com  # comment");
    assert_eq!(ts, vec!["0.0.0.0", "mojang.com", "#", "comment"]);
    assert!(tokens("").is_empty());
}

#[test]
fn test_line_flagged() {
    assert!(line_flagged("0.0.0.0 authserver.mojang.com"));
    assert!(line_flagged("127.0.0.1\tsessionserver.minecraft.net extra"));
    assert!(line_flagged("0.0.0.0 api.lightylauncher.fr"));
    assert!(!line_flagged("# 0.0.0.0 mojang.com"));
    assert!(!line_flagged("127.0.0.1 localhost"));
    assert!(!line_flagged("mojang.com"));
    assert!(!line_flagged(""));
}

#[test]
fn test_flagged_hosts_lines() {
    let content = "# hosts file\n127.0.0.1 localhost\n0.0.0.0 authserver.mojang.com\n\n0.0.0.0 minecraft.net\n";
    let flagged = flagged_hosts_lines(content);
    assert_eq!(flagged, vec!["0.0.0.0 authserver.mojang.com", "0.0.0.0 minecraft.net"]);
}

#[test]
fn test_flagged_hosts_lines_clean_file() {
    let content = "127.0.0.1 localhost\n::1 localhost\n";
    assert!(flagged_hosts_lines(content).is_empty());
}

#[test]
fn test_hosts_path() {
    assert_eq!(hosts_path("C:"), "C:\\Windows\\System32\\drivers\\etc\\hosts");
    assert_eq!(hosts_path("D:"), "D:\\Windows\\System32\\drivers\\etc\\hosts");
}
