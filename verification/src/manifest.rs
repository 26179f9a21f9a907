//! The version descriptor derived from the upstream metadata service, and
//! the decisions the manifest resolver takes on it.
//!
//! The host shell fetches and deserialises the JSON; this module holds the
//! resulting plain values and answers: which per-version URL belongs to the
//! requested game version, which runtime major it needs, and which main
//! class each loader boots.

use vstd::prelude::*;

use crate::download::DownloadItem;
use crate::error::LauncherError;
use crate::loader::LoaderKind;
use crate::rules::Rule;
use crate::text::str_eq;

verus! {

/// A downloadable file with its declared digest and size.
pub struct FileCheck {
    pub url: String,
    pub sha1: String,
    pub size: u64,
}

/// A library artifact: a file check together with its repository path.
pub struct ArtifactInfo {
    pub path: String,
    pub url: String,
    pub sha1: String,
    pub size: u64,
}

/// The asset index pointer of a modern descriptor.
pub struct AssetIndexInfo {
    pub id: String,
    pub url: String,
    pub sha1: String,
    pub size: u64,
}

/// One library of a version descriptor.
pub struct LibraryInfo {
    /// The maven coordinate `group:artifact:version`.
    pub name: String,
    /// The main artifact, when the descriptor carries `downloads.artifact`.
    pub artifact: Option<ArtifactInfo>,
    /// Classifier name to artifact, from `downloads.classifiers`.
    pub classifiers: Vec<(String, ArtifactInfo)>,
    /// OS name to native-classifier template, from `natives`.
    pub natives: Vec<(String, String)>,
    /// The rule block, when present.
    pub rules: Option<Vec<Rule>>,
    /// Path prefixes excluded from native extraction.
    pub extract_excludes: Vec<String>,
}

/// A per-version descriptor, reduced to the fields the pipeline reads.
pub struct VersionDescriptor {
    pub main_class: Option<String>,
    pub java_major: Option<u32>,
    pub client: Option<FileCheck>,
    pub libraries: Vec<LibraryInfo>,
    pub asset_index: Option<AssetIndexInfo>,
    /// The `assets` id of a legacy descriptor without `assetIndex`.
    pub legacy_assets_id: Option<String>,
}

/// One entry of the global version index.
pub struct VersionEntry {
    pub id: String,
    pub url: String,
}

/// The URL of the global version index.
pub fn version_manifest_url() -> (r: &'static str)
    ensures
        r@ == "https://piston-meta.mojang.com/mc/game/version_manifest_v2.json"@,
{
    "https://piston-meta.mojang.com/mc/game/version_manifest_v2.json"
}

/// The per-version descriptor URL of the first index entry whose id is the
/// requested game version; `VersionNotFound` when no entry has it.
pub fn find_version_url(entries: &Vec<VersionEntry>, version: &str) -> (r: Result<
    String,
    LauncherError,
>)
    ensures
        match r {
            Ok(u) => exists|i: int|
                0 <= i < entries@.len() && entries@[i].id@ == version@ && u@ == entries@[i].url@
                    && forall|j: int| 0 <= j < i ==> entries@[j].id@ != version@,
            Err(LauncherError::VersionNotFound { version: v }) => v@ == version@ && forall|i: int|
                0 <= i < entries@.len() ==> entries@[i].id@ != version@,
            Err(_) => false,
        },
{
    let mut i: usize = 0;
    while i < entries.len()
        invariant
            i <= entries@.len(),
            forall|j: int| 0 <= j < i ==> entries@[j].id@ != version@,
        decreases entries@.len() - i,
    {
        if str_eq(entries[i].id.as_str(), version) {
            return Ok(entries[i].url.clone());
        }
        i += 1;
    }
    Err(LauncherError::VersionNotFound { version: version.to_owned() })
}

/// The runtime major version the descriptor requires.
pub fn required_java_major(d: &VersionDescriptor) -> (r: Result<u32, LauncherError>)
    ensures
        match r {
            Ok(m) => d.java_major == Some(m),
            Err(LauncherError::ManifestMissingField { field }) => d.java_major is None && field@
                == "javaVersion.majorVersion"@,
            Err(_) => false,
        },
{
    match d.java_major {
        Option::Some(m) => Ok(m),
        Option::None => Err(
            LauncherError::ManifestMissingField {
                field: String::from_str("javaVersion.majorVersion"),
            },
        ),
    }
}

/// The client JAR download of a descriptor: its declared URL, digest and
/// size, landing at the profile's client path.
pub fn plan_client(d: &VersionDescriptor, client_path: &str) -> (r: Result<
    DownloadItem,
    LauncherError,
>)
    ensures
        match r {
            Ok(item) => d.client matches Some(c) && item@.url == c.url@ && item@.path
                == client_path@ && item@.sha1 == Option::Some(c.sha1@) && item@.size
                == Option::Some(c.size),
            Err(LauncherError::ManifestMissingField { field }) => d.client is None && field@
                == "downloads.client"@,
            Err(_) => false,
        },
{
    match &d.client {
        Option::Some(c) => Ok(
            DownloadItem {
                url: c.url.clone(),
                path: client_path.to_owned(),
                sha1: Option::Some(c.sha1.clone()),
                size: Option::Some(c.size),
            },
        ),
        Option::None => Err(
            LauncherError::ManifestMissingField { field: String::from_str("downloads.client") },
        ),
    }
}

/// The main class a profile boots, by loader.
///
/// Vanilla reads the descriptor; Fabric, Quilt and NeoForge read the loader
/// profile the host shell fetched (or, for NeoForge, the installer emitted);
/// OptiFine boots its installer frame.  Forge and unknown loaders are not
/// supported.
pub fn resolve_main_class(
    kind: LoaderKind,
    loader_name: &str,
    descriptor_main: &Option<String>,
    loader_profile_main: &Option<String>,
) -> (r: Result<String, LauncherError>)
    ensures
        match r {
            Ok(m) => match kind {
                LoaderKind::Vanilla => descriptor_main matches Some(c) && m@ == c@,
                LoaderKind::Fabric => loader_profile_main matches Some(c) && m@ == c@,
                LoaderKind::Quilt => loader_profile_main matches Some(c) && m@ == c@,
                LoaderKind::NeoForge => loader_profile_main matches Some(c) && m@ == c@,
                LoaderKind::OptiFine => m@ == "optifine.InstallerFrame"@,
                _ => false,
            },
            Err(LauncherError::ManifestMissingField { field }) => field@ == "mainClass"@ && match
                kind {
                LoaderKind::Vanilla => descriptor_main is None,
                LoaderKind::Fabric => loader_profile_main is None,
                LoaderKind::Quilt => loader_profile_main is None,
                LoaderKind::NeoForge => loader_profile_main is None,
                _ => false,
            },
            Err(LauncherError::LoaderNotSupported { loader }) => loader@ == loader_name@ && (kind
                is Forge || kind is Unknown),
            Err(_) => false,
        },
{
    match kind {
        LoaderKind::Vanilla => match descriptor_main {
            Option::Some(c) => Ok(c.clone()),
            Option::None => Err(
                LauncherError::ManifestMissingField { field: String::from_str("mainClass") },
            ),
        },
        LoaderKind::Fabric | LoaderKind::Quilt | LoaderKind::NeoForge => match loader_profile_main {
            Option::Some(c) => Ok(c.clone()),
            Option::None => Err(
                LauncherError::ManifestMissingField { field: String::from_str("mainClass") },
            ),
        },
        LoaderKind::OptiFine => Ok(String::from_str("optifine.InstallerFrame")),
        LoaderKind::Forge | LoaderKind::Unknown => Err(
            LauncherError::LoaderNotSupported { loader: loader_name.to_owned() },
        ),
    }
}

} // verus!
