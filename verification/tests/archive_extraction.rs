use std::io::Write;

use lighty_launcher::extract::{
    entry_excluded, extract_plan, is_safe_entry_path, plan_archive_extraction, targz_extract_plan,
};
use lighty_launcher::jre::ArchiveKind;

fn build_zip(entries: &[(&str, Option<&[u8]>)]) -> Vec<u8> {
    let mut cursor = std::io::Cursor::new(Vec::new());
    {
        let mut writer = zip::ZipWriter::new(&mut cursor);
        let options = zip::write::SimpleFileOptions::default()
            .compression_method(zip::CompressionMethod::Stored);
        for (name, contents) in entries {
            match contents {
                Some(bytes) => {
                    writer.start_file(*name, options).unwrap();
                    writer.write_all(bytes).unwrap();
                },
                None => {
                    writer.add_directory(*name, options).unwrap();
                },
            }
        }
        writer.finish().unwrap();
    }
    cursor.into_inner()
}

#[test]
fn test_safe_entry_paths() {
    assert!(is_safe_entry_path("lib/liblwjgl.so"));
    assert!(is_safe_entry_path("a.dll"));
    assert!(!is_safe_entry_path(""));
    assert!(!is_safe_entry_path("/etc/passwd"));
    assert!(!is_safe_entry_path("../evil.so"));
    assert!(!is_safe_entry_path("a/../evil.so"));
    assert!(!is_safe_entry_path("a\\b.dll"));
    assert!(!is_safe_entry_path("C:/windows/x"));
    assert!(is_safe_entry_path("a..b/ok.so"));
}

#[test]
fn test_entry_excluded() {
    let excludes = vec!["META-INF/".to_string()];
    assert!(entry_excluded("META-INF/MANIFEST.MF", &excludes));
    assert!(entry_excluded("nested/META-INF/x", &excludes));
    assert!(!entry_excluded("lib/liblwjgl.so", &excludes));
    assert!(!entry_excluded("anything", &vec![]));
}

#[test]
fn test_extract_plan_filters_entries() {
    let data = build_zip(&[
        ("liblwjgl.so", Some(b"ELF bytes".as_slice())),
        ("META-INF/MANIFEST.MF", Some(b"Manifest-Version: 1.0".as_slice())),
        ("docs/", None),
        ("docs/readme.txt", Some(b"hi".as_slice())),
    ]);
    let excludes = vec!["META-INF/".to_string()];
    let plan = extract_plan(&data, &excludes).unwrap();
    let names: Vec<&str> = plan.iter().map(|e| e.name.as_str()).collect();
    assert_eq!(names, vec!["liblwjgl.so", "docs/", "docs/readme.txt"]);
    assert_eq!(plan[0].data, b"ELF bytes".to_vec());
    assert!(!plan[0].is_dir);
    assert!(plan[1].is_dir);
}

fn build_targz(entries: &[(&str, Option<&[u8]>)]) -> Vec<u8> {
    let mut builder = tar::Builder::new(Vec::new());
    for (name, contents) in entries {
        let mut header = tar::Header::new_gnu();
        match contents {
            Some(bytes) => {
                header.set_size(bytes.len() as u64);
                header.set_mode(0o644);
                header.set_cksum();
                builder.append_data(&mut header, name, *bytes).unwrap();
            },
            None => {
                header.set_size(0);
                header.set_mode(0o755);
                header.set_entry_type(tar::EntryType::dir());
                header.set_cksum();
                builder.append_data(&mut header, name, &[][..]).unwrap();
            },
        }
    }
    let tar_bytes = builder.into_inner().unwrap();
    let mut encoder = flate2::write::GzEncoder::new(Vec::new(), flate2::Compression::default());
    encoder.write_all(&tar_bytes).unwrap();
    encoder.finish().unwrap()
}

#[test]
fn test_targz_extract_plan_filters_entries() {
    let data = build_targz(&[
        ("jdk-17/", None),
        ("jdk-17/bin/java", Some(b"ELF bytes".as_slice())),
        ("jdk-17/legal/LICENSE", Some(b"text".as_slice())),
    ]);
    let plan = targz_extract_plan(&data, &vec![]).unwrap();
    let names: Vec<&str> = plan.iter().map(|e| e.name.as_str()).collect();
    assert_eq!(names, vec!["jdk-17/", "jdk-17/bin/java", "jdk-17/legal/LICENSE"]);
    assert!(plan[0].is_dir);
    assert_eq!(plan[1].data, b"ELF bytes".to_vec());
    let excluded = targz_extract_plan(&data, &vec!["legal".to_string()]).unwrap();
    let kept: Vec<&str> = excluded.iter().map(|e| e.name.as_str()).collect();
    assert_eq!(kept, vec!["jdk-17/", "jdk-17/bin/java"]);
}

#[test]
fn test_targz_extract_plan_rejects_garbage() {
    assert!(targz_extract_plan(&vec![9, 9, 9, 9], &vec![]).is_err());
}

#[test]
fn test_plan_archive_extraction_dispatch() {
    let zip_data = build_zip(&[("a.so", Some(b"z".as_slice()))]);
    let tar_data = build_targz(&[("b.so", Some(b"t".as_slice()))]);
    let from_zip = plan_archive_extraction(&zip_data, ArchiveKind::Zip, &vec![]).unwrap();
    assert_eq!(from_zip[0].name, "a.so");
    let from_tar = plan_archive_extraction(&tar_data, ArchiveKind::TarGz, &vec![]).unwrap();
    assert_eq!(from_tar[0].name, "b.so");
    // Each reader accepts only its own format.
    assert!(plan_archive_extraction(&tar_data, ArchiveKind::Zip, &vec![]).is_err());
    assert!(plan_archive_extraction(&zip_data, ArchiveKind::TarGz, &vec![]).is_err());
}

#[test]
fn test_extract_plan_rejects_garbage() {
    let data = vec![1, 2, 3, 4];
    assert!(extract_plan(&data, &vec![]).is_err());
}

#[test]
fn test_extract_plan_empty_archive() {
    let data = build_zip(&[]);
    let plan = extract_plan(&data, &vec![]).unwrap();
    assert!(plan.is_empty());
}
