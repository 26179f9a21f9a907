//! The runtime provisioner's decisions: slot naming under the runtimes
//! root, the platform-specific executable path inside an extracted archive,
//! the distribution's download URL, and the archive format to extract.
//!
//! The host shell walks directories, downloads and extracts; every name and
//! path it uses comes from here.

use vstd::prelude::*;

use crate::error::LauncherError;
use crate::system::{Architecture, OperatingSystem};
use crate::text::{spec_dec, u64_to_string};
use crate::version::join_path;

verus! {

/// The archive format of a runtime distribution.
#[derive(Clone, Copy, PartialEq, Eq, Debug, Structural)]
pub enum ArchiveKind {
    Zip,
    TarGz,
}

/// The name of the Temurin distribution, used in slot names.
pub fn temurin_name() -> (r: &'static str)
    ensures
        r@ == "temurin"@,
{
    "temurin"
}

/// The slot directory name of a distribution and major version:
/// `<distribution>_<major>`.
pub fn runtime_slot_name(distribution: &str, major: u32) -> (r: String)
    ensures
        r@ == distribution@ + "_"@ + spec_dec(major as int),
{
    let mut s = distribution.to_owned();
    s.append("_");
    let d = u64_to_string(major as u64);
    s.append(d.as_str());
    s
}

/// The slot directory of a distribution and major version below the
/// runtimes root.
pub fn runtime_slot_dir(runtimes_root: &str, distribution: &str, major: u32) -> (r: String)
    ensures
        r@ == runtimes_root@ + "/"@ + distribution@ + "_"@ + spec_dec(major as int),
{
    let slot = runtime_slot_name(distribution, major);
    let r = join_path(runtimes_root, slot.as_str());
    proof {
        assert(r@ =~= runtimes_root@ + "/"@ + distribution@ + "_"@ + spec_dec(major as int));
    }
    r
}

/// The executable's path relative to the archive's top directory: `javaw`
/// with a console on Windows, the bundle layout on OSX, `bin/java`
/// elsewhere.
pub fn java_binary_relpath(os: OperatingSystem) -> (r: &'static str)
    ensures
        match os {
            OperatingSystem::WINDOWS => r@ == "bin/javaw.exe"@,
            OperatingSystem::OSX => r@ == "Contents/Home/bin/java"@,
            _ => r@ == "bin/java"@,
        },
{
    match os {
        OperatingSystem::WINDOWS => "bin/javaw.exe",
        OperatingSystem::OSX => "Contents/Home/bin/java",
        _ => "bin/java",
    }
}

/// The full path of the runtime executable, given the archive's top
/// directory name as found in the slot.
pub fn runtime_binary_path(
    runtimes_root: &str,
    distribution: &str,
    major: u32,
    top_dir: &str,
    os: OperatingSystem,
) -> (r: String)
    ensures
        r@ == runtimes_root@ + "/"@ + distribution@ + "_"@ + spec_dec(major as int) + "/"@
            + top_dir@ + "/"@ + (match os {
            OperatingSystem::WINDOWS => "bin/javaw.exe"@,
            OperatingSystem::OSX => "Contents/Home/bin/java"@,
            _ => "bin/java"@,
        }),
{
    let slot = runtime_slot_dir(runtimes_root, distribution, major);
    let inner = join_path(slot.as_str(), top_dir);
    let r = join_path(inner.as_str(), java_binary_relpath(os));
    proof {
        assert(r@ =~= runtimes_root@ + "/"@ + distribution@ + "_"@ + spec_dec(major as int) + "/"@
            + top_dir@ + "/"@ + (match os {
            OperatingSystem::WINDOWS => "bin/javaw.exe"@,
            OperatingSystem::OSX => "Contents/Home/bin/java"@,
            _ => "bin/java"@,
        }));
    }
    r
}

/// The failure modes of the locator: an absent slot, or a slot without the
/// expected executable.
pub fn locate_outcome(slot_exists: bool, binary_exists: bool) -> (r: Result<(), LauncherError>)
    ensures
        match r {
            Ok(()) => slot_exists && binary_exists,
            Err(LauncherError::RuntimeSlotMissing) => !slot_exists,
            Err(LauncherError::RuntimeBinaryMissing) => slot_exists && !binary_exists,
            Err(_) => false,
        },
{
    if !slot_exists {
        Err(LauncherError::RuntimeSlotMissing)
    } else if !binary_exists {
        Err(LauncherError::RuntimeBinaryMissing)
    } else {
        Ok(())
    }
}

/// Whether a POSIX file mode lacks the owner-execute bit, in which case
/// the locator sets the execute bits.
pub fn exec_bits_missing(mode: u32) -> (r: bool)
    ensures
        r == (mode & 0o100 == 0),
{
    mode & 0o100 == 0
}

/// The archive format a runtime distribution ships for this OS.
pub fn runtime_archive_kind(os: OperatingSystem) -> (r: Result<ArchiveKind, LauncherError>)
    ensures
        match os {
            OperatingSystem::WINDOWS => r matches Ok(k) && k == ArchiveKind::Zip,
            OperatingSystem::LINUX => r matches Ok(k) && k == ArchiveKind::TarGz,
            OperatingSystem::OSX => r matches Ok(k) && k == ArchiveKind::TarGz,
            OperatingSystem::UNKNOWN => r matches Err(LauncherError::UnsupportedPlatform),
        },
{
    match os {
        OperatingSystem::WINDOWS => Ok(ArchiveKind::Zip),
        OperatingSystem::LINUX | OperatingSystem::OSX => Ok(ArchiveKind::TarGz),
        OperatingSystem::UNKNOWN => Err(LauncherError::UnsupportedPlatform),
    }
}

/// The Temurin download URL for a platform and major version, from the
/// Adoptium latest-GA binary endpoint.
pub fn temurin_url(os: OperatingSystem, arch: Architecture, major: u32) -> (r: Result<
    String,
    LauncherError,
>)
    ensures
        match r {
            Ok(u) => os != OperatingSystem::UNKNOWN && arch != Architecture::UNKNOWN && u@
                == "https://api.adoptium.net/v3/binary/latest/"@ + spec_dec(major as int) + "/ga/"@
                + (match os {
                OperatingSystem::WINDOWS => "windows"@,
                OperatingSystem::LINUX => "linux"@,
                _ => "mac"@,
            }) + "/"@ + (match arch {
                Architecture::X86 => "x86"@,
                Architecture::X64 => "x64"@,
                Architecture::ARM => "arm"@,
                _ => "aarch64"@,
            }) + "/jre/hotspot/normal/eclipse"@,
            Err(LauncherError::UnsupportedPlatform) => os == OperatingSystem::UNKNOWN || arch
                == Architecture::UNKNOWN,
            Err(_) => false,
        },
{
    let os_name = match os.get_adoptium_name() {
        Ok(n) => n,
        Err(e) => {
            return Err(e);
        },
    };
    let arch_name = match arch.get_simple_name() {
        Ok(n) => n,
        Err(e) => {
            return Err(e);
        },
    };
    let mut u = String::from_str("https://api.adoptium.net/v3/binary/latest/");
    let d = u64_to_string(major as u64);
    u.append(d.as_str());
    u.append("/ga/");
    u.append(os_name);
    u.append("/");
    u.append(arch_name);
    u.append("/jre/hotspot/normal/eclipse");
    proof {
        assert(u@ =~= "https://api.adoptium.net/v3/binary/latest/"@ + spec_dec(major as int)
            + "/ga/"@ + (match os {
            OperatingSystem::WINDOWS => "windows"@,
            OperatingSystem::LINUX => "linux"@,
            _ => "mac"@,
        }) + "/"@ + (match arch {
            Architecture::X86 => "x86"@,
            Architecture::X64 => "x64"@,
            Architecture::ARM => "arm"@,
            _ => "aarch64"@,
        }) + "/jre/hotspot/normal/eclipse"@);
    }
    Ok(u)
}

} // verus!
