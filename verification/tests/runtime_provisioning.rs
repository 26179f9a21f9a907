use lighty_launcher::error::LauncherError;
use lighty_launcher::jre::{
    exec_bits_missing, java_binary_relpath, locate_outcome, runtime_archive_kind,
    runtime_binary_path, runtime_slot_dir, runtime_slot_name, temurin_name, temurin_url,
    ArchiveKind,
};
use lighty_launcher::system::{Architecture, OperatingSystem};

#[test]
fn test_slot_naming() {
    assert_eq!(temurin_name(), "temurin");
    assert_eq!(runtime_slot_name("temurin", 17), "temurin_17");
    assert_eq!(runtime_slot_name("temurin", 8), "temurin_8");
    assert_eq!(runtime_slot_dir("/runtimes", "temurin", 21), "/runtimes/temurin_21");
}

#[test]
fn test_java_binary_relpath() {
    assert_eq!(java_binary_relpath(OperatingSystem::WINDOWS), "bin/javaw.exe");
    assert_eq!(java_binary_relpath(OperatingSystem::OSX), "Contents/Home/bin/java");
    assert_eq!(java_binary_relpath(OperatingSystem::LINUX), "bin/java");
}

#[test]
fn test_runtime_binary_path() {
    assert_eq!(
        runtime_binary_path("/runtimes", "temurin", 17, "jdk-17.0.9+9-jre", OperatingSystem::LINUX),
        "/runtimes/temurin_17/jdk-17.0.9+9-jre/bin/java"
    );
    assert_eq!(
        runtime_binary_path("/r", "temurin", 8, "top", OperatingSystem::WINDOWS),
        "/r/temurin_8/top/bin/javaw.exe"
    );
}

#[test]
fn test_locate_outcome() {
    assert!(locate_outcome(true, true).is_ok());
    assert!(matches!(locate_outcome(false, false), Err(LauncherError::RuntimeSlotMissing)));
    assert!(matches!(locate_outcome(true, false), Err(LauncherError::RuntimeBinaryMissing)));
}

#[test]
fn test_exec_bits_missing() {
    assert!(exec_bits_missing(0o644));
    assert!(!exec_bits_missing(0o755));
    assert!(!exec_bits_missing(0o100));
    // Group/other execute without the owner bit still needs fixing.
    assert!(exec_bits_missing(0o011));
}

#[test]
fn test_runtime_archive_kind() {
    assert_eq!(runtime_archive_kind(OperatingSystem::WINDOWS).unwrap(), ArchiveKind::Zip);
    assert_eq!(runtime_archive_kind(OperatingSystem::LINUX).unwrap(), ArchiveKind::TarGz);
    assert!(runtime_archive_kind(OperatingSystem::UNKNOWN).is_err());
}

#[test]
fn test_temurin_url() {
    assert_eq!(
        temurin_url(OperatingSystem::LINUX, Architecture::X64, 17).unwrap(),
        "https://api.adoptium.net/v3/binary/latest/17/ga/linux/x64/jre/hotspot/normal/eclipse"
    );
    assert_eq!(
        temurin_url(OperatingSystem::OSX, Architecture::AARCH64, 21).unwrap(),
        "https://api.adoptium.net/v3/binary/latest/21/ga/mac/aarch64/jre/hotspot/normal/eclipse"
    );
    assert!(matches!(
        temurin_url(OperatingSystem::UNKNOWN, Architecture::X64, 17),
        Err(LauncherError::UnsupportedPlatform)
    ));
    assert!(matches!(
        temurin_url(OperatingSystem::LINUX, Architecture::UNKNOWN, 17),
        Err(LauncherError::UnsupportedPlatform)
    ));
}
