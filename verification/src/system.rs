//! Platform probe: operating-system and processor identities, and the
//! platform-derived constants the install pipeline needs (classpath
//! separator, archive format, distribution-specific OS tokens).
//!
//! Every accessor fails on an unknown platform; the rest of the crate treats
//! `UNKNOWN` as unsupported.

use vstd::prelude::*;

use crate::error::LauncherError;

verus! {

/// Operating-system family the client runs on.
#[allow(non_camel_case_types)]
#[derive(Clone, Copy, PartialEq, Eq, Hash, Debug, Structural)]
pub enum OperatingSystem {
    WINDOWS,
    LINUX,
    OSX,
    UNKNOWN,
}

/// Processor architecture the client runs on.
#[allow(non_camel_case_types)]
#[derive(Clone, Copy, PartialEq, Eq, Hash, Debug, Structural)]
pub enum Architecture {
    X86,
    X64,
    ARM,
    AARCH64,
    UNKNOWN,
}

impl OperatingSystem {
    /// The separator between classpath entries: `;` on Windows, `:` elsewhere.
    pub fn get_path_separator(&self) -> (r: Result<&'static str, LauncherError>)
        ensures
            match self {
                OperatingSystem::WINDOWS => r matches Ok(s) && s@ == ";"@,
                OperatingSystem::LINUX => r matches Ok(s) && s@ == ":"@,
                OperatingSystem::OSX => r matches Ok(s) && s@ == ":"@,
                OperatingSystem::UNKNOWN => r matches Err(LauncherError::UnsupportedPlatform),
            },
    {
        match self {
            OperatingSystem::WINDOWS => Ok(";"),
            OperatingSystem::LINUX | OperatingSystem::OSX => Ok(":"),
            OperatingSystem::UNKNOWN => Err(LauncherError::UnsupportedPlatform),
        }
    }

    /// The OS token used by the upstream version manifests (`windows`,
    /// `linux`, `osx`).
    pub fn get_simple_name(&self) -> (r: Result<&'static str, LauncherError>)
        ensures
            match self {
                OperatingSystem::WINDOWS => r matches Ok(s) && s@ == "windows"@,
                OperatingSystem::LINUX => r matches Ok(s) && s@ == "linux"@,
                OperatingSystem::OSX => r matches Ok(s) && s@ == "osx"@,
                OperatingSystem::UNKNOWN => r matches Err(LauncherError::UnsupportedPlatform),
            },
    {
        match self {
            OperatingSystem::WINDOWS => Ok("windows"),
            OperatingSystem::LINUX => Ok("linux"),
            OperatingSystem::OSX => Ok("osx"),
            OperatingSystem::UNKNOWN => Err(LauncherError::UnsupportedPlatform),
        }
    }

    /// The OS token used by the Adoptium runtime distribution (`mac`, not
    /// `osx`).
    pub fn get_adoptium_name(&self) -> (r: Result<&'static str, LauncherError>)
        ensures
            match self {
                OperatingSystem::WINDOWS => r matches Ok(s) && s@ == "windows"@,
                OperatingSystem::LINUX => r matches Ok(s) && s@ == "linux"@,
                OperatingSystem::OSX => r matches Ok(s) && s@ == "mac"@,
                OperatingSystem::UNKNOWN => r matches Err(LauncherError::UnsupportedPlatform),
            },
    {
        match self {
            OperatingSystem::WINDOWS => Ok("windows"),
            OperatingSystem::LINUX => Ok("linux"),
            OperatingSystem::OSX => Ok("mac"),
            OperatingSystem::UNKNOWN => Err(LauncherError::UnsupportedPlatform),
        }
    }

    /// The OS token used by the GraalVM runtime distribution (`macos`).
    pub fn get_graal_name(&self) -> (r: Result<&'static str, LauncherError>)
        ensures
            match self {
                OperatingSystem::WINDOWS => r matches Ok(s) && s@ == "windows"@,
                OperatingSystem::LINUX => r matches Ok(s) && s@ == "linux"@,
                OperatingSystem::OSX => r matches Ok(s) && s@ == "macos"@,
                OperatingSystem::UNKNOWN => r matches Err(LauncherError::UnsupportedPlatform),
            },
    {
        match self {
            OperatingSystem::WINDOWS => Ok("windows"),
            OperatingSystem::LINUX => Ok("linux"),
            OperatingSystem::OSX => Ok("macos"),
            OperatingSystem::UNKNOWN => Err(LauncherError::UnsupportedPlatform),
        }
    }

    /// The archive format runtime distributions ship for this OS: `zip` on
    /// Windows, `tar.gz` elsewhere.
    pub fn get_archive_type(&self) -> (r: Result<&'static str, LauncherError>)
        ensures
            match self {
                OperatingSystem::WINDOWS => r matches Ok(s) && s@ == "zip"@,
                OperatingSystem::LINUX => r matches Ok(s) && s@ == "tar.gz"@,
                OperatingSystem::OSX => r matches Ok(s) && s@ == "tar.gz"@,
                OperatingSystem::UNKNOWN => r matches Err(LauncherError::UnsupportedPlatform),
            },
    {
        match self {
            OperatingSystem::WINDOWS => Ok("zip"),
            OperatingSystem::LINUX | OperatingSystem::OSX => Ok("tar.gz"),
            OperatingSystem::UNKNOWN => Err(LauncherError::UnsupportedPlatform),
        }
    }
}

/// The machine's total RAM in bytes.
///
/// Relies on `sysinfo::System::total_memory` after a memory refresh;
/// nothing is promised of the value.
#[verifier::external_body]
pub fn sys_memory() -> (r: u64) {
    let mut sys = sysinfo::System::new_with_specifics(
        sysinfo::RefreshKind::nothing().with_memory(sysinfo::MemoryRefreshKind::everything()),
    );
    sys.refresh_memory();
    sys.total_memory()
}

/// Whole gibibytes of a byte count, rounded down.
pub fn memory_in_gb(bytes: u64) -> (r: i64)
    ensures
        r == bytes as int / 0x40000000,
{
    proof {
        assert(bytes as int / 0x40000000 <= u64::MAX as int / 0x40000000);
    }
    (bytes / 0x40000000) as i64
}

/// The machine's total RAM in whole gibibytes.
pub fn sys_memory_gb() -> (r: i64)
    ensures
        r >= 0,
{
    memory_in_gb(sys_memory())
}

/// Whether a file is older than the retention window: modified in the
/// past, more than `max_age_days` days before `now`.  Log cleaning removes
/// exactly these files.
pub fn file_expired(now_secs: u64, modified_secs: u64, max_age_days: u64) -> (r: bool)
    requires
        max_age_days * 86400 <= u64::MAX,
    ensures
        r == (modified_secs <= now_secs && now_secs - modified_secs > max_age_days * 86400),
{
    modified_secs <= now_secs && now_secs - modified_secs > max_age_days * 86400
}

impl Architecture {
    /// The architecture token used by the upstream manifests and runtime
    /// distributions.
    pub fn get_simple_name(&self) -> (r: Result<&'static str, LauncherError>)
        ensures
            match self {
                Architecture::X86 => r matches Ok(s) && s@ == "x86"@,
                Architecture::X64 => r matches Ok(s) && s@ == "x64"@,
                Architecture::ARM => r matches Ok(s) && s@ == "arm"@,
                Architecture::AARCH64 => r matches Ok(s) && s@ == "aarch64"@,
                Architecture::UNKNOWN => r matches Err(LauncherError::UnsupportedPlatform),
            },
    {
        match self {
            Architecture::X86 => Ok("x86"),
            Architecture::X64 => Ok("x64"),
            Architecture::ARM => Ok("arm"),
            Architecture::AARCH64 => Ok("aarch64"),
            Architecture::UNKNOWN => Err(LauncherError::UnsupportedPlatform),
        }
    }
}

} // verus!
