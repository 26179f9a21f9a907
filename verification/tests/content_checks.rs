use lighty_launcher::download::{
    digest_matches, pending_downloads, str_eq_nocase, verify_content, DownloadItem,
};
use lighty_launcher::error::LauncherError;
use sha1::Digest;

fn item(url: &str, path: &str) -> DownloadItem {
    DownloadItem { url: url.to_string(), path: path.to_string(), sha1: None, size: None }
}

#[test]
fn test_digest_matches_reference_digest() {
    // The digest of the library must agree with an independent SHA-1 run.
    let data = b"hello world".to_vec();
    let expected = hex::encode(sha1::Sha1::digest(&data));
    assert!(verify_content(&data, "p", &expected, data.len() as u64).is_ok());
}

#[test]
fn test_verify_content_accepts_correct_body() {
    let body = b"some client jar bytes".to_vec();
    let sha = hex::encode(sha1::Sha1::digest(&body));
    assert!(verify_content(&body, "a/b.jar", &sha, body.len() as u64).is_ok());
}

#[test]
fn test_verify_content_accepts_uppercase_digest() {
    let body = b"case insensitive".to_vec();
    let sha = hex::encode(sha1::Sha1::digest(&body)).to_uppercase();
    assert!(verify_content(&body, "a/b.jar", &sha, body.len() as u64).is_ok());
}

#[test]
fn test_verify_content_size_mismatch() {
    let body = b"abc".to_vec();
    let sha = hex::encode(sha1::Sha1::digest(&body));
    match verify_content(&body, "p", &sha, 4) {
        Err(LauncherError::SizeMismatch { path, expected, actual }) => {
            assert_eq!(path, "p");
            assert_eq!(expected, 4);
            assert_eq!(actual, 3);
        },
        other => panic!("expected SizeMismatch, got {:?}", other),
    }
}

#[test]
fn test_verify_content_hash_mismatch() {
    let body = b"abc".to_vec();
    let wrong = "a".repeat(40);
    match verify_content(&body, "p", &wrong, 3) {
        Err(LauncherError::HashMismatch { path, expected, actual }) => {
            assert_eq!(path, "p");
            assert_eq!(expected, wrong);
            assert_eq!(actual, hex::encode(sha1::Sha1::digest(&body)));
        },
        other => panic!("expected HashMismatch, got {:?}", other),
    }
}

#[test]
fn test_digest_matches() {
    let digest = vec![0xde, 0xad];
    assert!(digest_matches(&digest, "dead"));
    assert!(digest_matches(&digest, "DEAD"));
    assert!(!digest_matches(&digest, "beef"));
    assert!(!digest_matches(&digest, "dea"));
}

#[test]
fn test_str_eq_nocase() {
    assert!(str_eq_nocase("AbC", "aBc"));
    assert!(!str_eq_nocase("abc", "abd"));
    assert!(!str_eq_nocase("abc", "ab"));
}

#[test]
fn test_pending_downloads_skips_present() {
    let plan = vec![item("u1", "p1"), item("u2", "p2"), item("u3", "p3")];
    let present = vec![true, false, true];
    let pending = pending_downloads(&plan, &present);
    assert_eq!(pending.len(), 1);
    assert_eq!(pending[0].url, "u2");
    assert_eq!(pending[0].path, "p2");
}

#[test]
fn test_pending_downloads_complete_profile_is_idempotent() {
    // All targets already present: a re-run downloads nothing.
    let plan = vec![item("u1", "p1"), item("u2", "p2")];
    let pending = pending_downloads(&plan, &vec![true, true]);
    assert!(pending.is_empty());
}
