//! The NeoForge loader: the old-versus-modern split at game version
//! 1.20.1, the installer URL and invocation, the installer-emitted profile,
//! and the profile's library downloads.
//!
//! Game versions up to 1.20.1 use the legacy `forge` coordinates and the
//! version id `forge-<game>-<loader>`; later ones use `neoforge` and
//! `neoforge-<loader>`.

use vstd::prelude::*;

use crate::download::{items_view, DownloadItem, DownloadItemModel};
use crate::error::LauncherError;
use crate::text::{
    lemma_matches_in_suffix, find_sub, matches_at, spec_starts_with,
};
use crate::version::{join_path, Version};

verus! {

/// Whether version `a` precedes or equals version `b` under the
/// version-string ordering of the `version_compare` crate; `false` when
/// either does not parse as a version.
pub uninterp spec fn spec_version_le(a: Seq<char>, b: Seq<char>) -> bool;

/// Relies on `version_compare::compare_to` with `Cmp::Le`: the comparison
/// is a pure function of the two version strings; a comparison error is
/// reported as `false`.
#[verifier::external_body]
fn version_le(a: &str, b: &str) -> (r: bool)
    ensures
        r == spec_version_le(a@, b@),
{
    version_compare::compare_to(a, b, version_compare::Cmp::Le).unwrap_or(false)
}

/// The loader-specific version id of a profile: `forge-<game>-<loader>`
/// for old versions, `neoforge-<loader>` for modern ones.
pub open spec fn spec_version_id(game: Seq<char>, loader: Seq<char>) -> Seq<char> {
    if spec_version_le(game, "1.20.1"@) {
        "forge-"@ + game + "-"@ + loader
    } else {
        "neoforge-"@ + loader
    }
}

impl Version {
    /// Game versions up to 1.20.1 install through the legacy Forge
    /// coordinates.
    pub fn is_old_neoforge(&self) -> (r: bool)
        ensures
            r == spec_version_le(self.minecraft_version@, "1.20.1"@),
    {
        version_le(self.minecraft_version.as_str(), "1.20.1")
    }

    /// The version id the installer and the profile JSON are named after.
    pub fn get_version_id(&self) -> (r: String)
        ensures
            r@ == spec_version_id(self.minecraft_version@, self.loader_version@),
    {
        if self.is_old_neoforge() {
            let mut s = String::from_str("forge-");
            s.append(self.minecraft_version.as_str());
            s.append("-");
            s.append(self.loader_version.as_str());
            proof {
                assert(s@ =~= "forge-"@ + self.minecraft_version@ + "-"@ + self.loader_version@);
            }
            s
        } else {
            let mut s = String::from_str("neoforge-");
            s.append(self.loader_version.as_str());
            s
        }
    }

    /// The installer JAR's URL: the `forge` coordinates for old versions,
    /// `neoforge` for modern ones, both under
    /// `<game>-<loader>/<version_id>-installer.jar`.
    pub fn neoforge_installer_url(&self) -> (r: String)
        ensures
            r@ == (if spec_version_le(self.minecraft_version@, "1.20.1"@) {
                "https://maven.neoforged.net/releases/net/neoforged/forge/"@
            } else {
                "https://maven.neoforged.net/releases/net/neoforged/neoforge/"@
            }) + self.minecraft_version@ + "-"@ + self.loader_version@ + "/"@ + spec_version_id(
                self.minecraft_version@,
                self.loader_version@,
            ) + "-installer.jar"@,
    {
        let mut u = if self.is_old_neoforge() {
            String::from_str("https://maven.neoforged.net/releases/net/neoforged/forge/")
        } else {
            String::from_str("https://maven.neoforged.net/releases/net/neoforged/neoforge/")
        };
        u.append(self.minecraft_version.as_str());
        u.append("-");
        u.append(self.loader_version.as_str());
        u.append("/");
        let vid = self.get_version_id();
        u.append(vid.as_str());
        u.append("-installer.jar");
        proof {
            assert(u@ =~= (if spec_version_le(self.minecraft_version@, "1.20.1"@) {
                "https://maven.neoforged.net/releases/net/neoforged/forge/"@
            } else {
                "https://maven.neoforged.net/releases/net/neoforged/neoforge/"@
            }) + self.minecraft_version@ + "-"@ + self.loader_version@ + "/"@ + spec_version_id(
                self.minecraft_version@,
                self.loader_version@,
            ) + "-installer.jar"@);
        }
        u
    }

    /// Where the installer JAR lands: `<game_dir>/<version_id>-installer.jar`.
    pub fn neoforge_installer_path(&self) -> (r: String)
        ensures
            r@ == self.spec_game_dir() + "/"@ + spec_version_id(
                self.minecraft_version@,
                self.loader_version@,
            ) + "-installer.jar"@,
    {
        let vid = self.get_version_id();
        let mut file = vid;
        file.append("-installer.jar");
        let dir = self.get_game_dir();
        let r = join_path(dir.as_str(), file.as_str());
        proof {
            assert(r@ =~= self.spec_game_dir() + "/"@ + spec_version_id(
                self.minecraft_version@,
                self.loader_version@,
            ) + "-installer.jar"@);
        }
        r
    }

    /// The profile JSON this loader keeps: `<game_dir>/<version_id>.json`.
    pub fn neoforge_profile_json_path(&self) -> (r: String)
        ensures
            r@ == self.spec_game_dir() + "/"@ + spec_version_id(
                self.minecraft_version@,
                self.loader_version@,
            ) + ".json"@,
    {
        let vid = self.get_version_id();
        let mut file = vid;
        file.append(".json");
        let dir = self.get_game_dir();
        let r = join_path(dir.as_str(), file.as_str());
        proof {
            assert(r@ =~= self.spec_game_dir() + "/"@ + spec_version_id(
                self.minecraft_version@,
                self.loader_version@,
            ) + ".json"@);
        }
        r
    }

    /// Where the installer emits its profile JSON:
    /// `<game_dir>/versions/<version_id>/<version_id>.json`.
    pub fn neoforge_emitted_json_path(&self) -> (r: String)
        ensures
            r@ == self.spec_game_dir() + "/versions/"@ + spec_version_id(
                self.minecraft_version@,
                self.loader_version@,
            ) + "/"@ + spec_version_id(self.minecraft_version@, self.loader_version@) + ".json"@,
    {
        let vid = self.get_version_id();
        let mut r = self.get_game_dir();
        r.append("/versions/");
        r.append(vid.as_str());
        r.append("/");
        r.append(vid.as_str());
        r.append(".json");
        proof {
            assert(r@ =~= self.spec_game_dir() + "/versions/"@ + spec_version_id(
                self.minecraft_version@,
                self.loader_version@,
            ) + "/"@ + spec_version_id(self.minecraft_version@, self.loader_version@) + ".json"@);
        }
        r
    }
}

/// The maven metadata XML the newest release is read from.
pub fn neoforge_metadata_url(old: bool) -> (r: &'static str)
    ensures
        r@ == (if old {
            "https://maven.neoforged.net/releases/net/neoforged/forge/maven-metadata.xml"@
        } else {
            "https://maven.neoforged.net/releases/net/neoforged/neoforge/maven-metadata.xml"@
        }),
{
    if old {
        "https://maven.neoforged.net/releases/net/neoforged/forge/maven-metadata.xml"
    } else {
        "https://maven.neoforged.net/releases/net/neoforged/neoforge/maven-metadata.xml"
    }
}

/// The argument vector the installer runs with: headless fat install
/// including the game's own libraries.
pub fn installer_arguments(installer_path: &str) -> (r: Vec<String>)
    ensures
        r.deep_view() == seq![
            "-jar"@,
            installer_path@,
            "--fat"@,
            "--fat-include-minecraft-lib"@,
        ],
{
    let mut r: Vec<String> = Vec::new();
    r.push(String::from_str("-jar"));
    r.push(installer_path.to_owned());
    r.push(String::from_str("--fat"));
    r.push(String::from_str("--fat-include-minecraft-lib"));
    proof {
        assert(r.deep_view() =~= seq![
            "-jar"@,
            installer_path@,
            "--fat"@,
            "--fat-include-minecraft-lib"@,
        ]);
    }
    r
}

/// The installer's exit: success, or `InstallerFailure` with its code (a
/// missing code is reported as `-1`).
pub fn installer_outcome(success: bool, code: Option<i32>) -> (r: Result<(), LauncherError>)
    ensures
        match r {
            Ok(()) => success,
            Err(LauncherError::InstallerFailure { code: c }) => !success && (match code {
                Option::Some(c0) => c == c0,
                Option::None => c == -1,
            }),
            Err(_) => false,
        },
{
    if success {
        Ok(())
    } else {
        let c = match code {
            Option::Some(c0) => c0,
            Option::None => -1,
        };
        Err(LauncherError::InstallerFailure { code: c })
    }
}

/// The newest release named by a maven metadata XML: the text between the
/// first `<release>` and the first `</release>` after it.
pub fn extract_release_tag(xml: &str) -> (r: Result<String, LauncherError>)
    ensures
        match r {
            Ok(v) => exists|i: int, k: int|
                {
                    &&& #[trigger] matches_at(xml@, "<release>"@, i)
                    &&& forall|j: int| 0 <= j < i ==> !matches_at(xml@, "<release>"@, j)
                    &&& i + 9 <= k
                    &&& #[trigger] matches_at(xml@, "</release>"@, k)
                    &&& forall|j: int| i + 9 <= j < k ==> !matches_at(xml@, "</release>"@, j)
                    &&& v@ == xml@.subrange(i + 9, k)
                },
            Err(LauncherError::ManifestMissingField { field }) => field@ == "release"@ && ((forall|
                j: int,
            | !matches_at(xml@, "<release>"@, j)) || exists|i: int|
                {
                    &&& #[trigger] matches_at(xml@, "<release>"@, i)
                    &&& forall|j: int| i + 9 <= j ==> !matches_at(xml@, "</release>"@, j)
                }),
            Err(_) => false,
        },
{
    let open_tag = "<release>";
    let close_tag = "</release>";
    proof {
        reveal_strlit("<release>");
        reveal_strlit("</release>");
    }
    let n = xml.unicode_len();
    match find_sub(xml, open_tag) {
        Some(i) => {
            let body_start = i + 9;
            if body_start > n {
                // A match of the nine-character tag always leaves
                // `i + 9 <= n`, so this cannot happen.
                proof {
                    assert(matches_at(xml@, "<release>"@, i as int));
                    assert(false);
                }
                return Err(
                    LauncherError::ManifestMissingField { field: String::from_str("release") },
                );
            }
            let rest = xml.substring_char(body_start, n);
            match find_sub(rest, close_tag) {
                Some(k) => {
                    let v = rest.substring_char(0, k).to_owned();
                    proof {
                        let lo = body_start as int;
                        assert(rest@ =~= xml@.subrange(lo, xml@.len() as int));
                        lemma_matches_in_suffix(xml@, lo, "</release>"@, k as int);
                        assert(matches_at(xml@, "</release>"@, lo + k));
                        assert forall|j: int| lo <= j < lo + k implies !matches_at(
                            xml@,
                            "</release>"@,
                            j,
                        ) by {
                            lemma_matches_in_suffix(xml@, lo, "</release>"@, j - lo);
                        }
                        assert(v@ =~= xml@.subrange(lo, lo + k));
                    }
                    Ok(v)
                },
                None => {
                    proof {
                        let lo = body_start as int;
                        assert(rest@ =~= xml@.subrange(lo, xml@.len() as int));
                        assert forall|j: int| lo <= j implies !matches_at(
                            xml@,
                            "</release>"@,
                            j,
                        ) by {
                            if j + "</release>"@.len() <= xml@.len() {
                                lemma_matches_in_suffix(xml@, lo, "</release>"@, j - lo);
                            }
                        }
                    }
                    Err(LauncherError::ManifestMissingField { field: String::from_str("release") })
                },
            }
        },
        None => Err(LauncherError::ManifestMissingField { field: String::from_str("release") }),
    }
}

/// One library of the installer-emitted profile: either a full artifact
/// (possibly with digest), or a bare coordinate.
pub struct NeoForgeLibrary {
    pub name: String,
    pub url: Option<String>,
    pub artifact: Option<NeoForgeArtifact>,
}

/// An artifact block of the installer-emitted profile; digest and size are
/// optional upstream.
pub struct NeoForgeArtifact {
    pub path: String,
    pub url: String,
    pub sha1: Option<String>,
    pub size: Option<u64>,
}

/// The planned download of one profile library: its artifact below `dir`
/// (verified exactly when a digest is declared), or its coordinate from the
/// NeoForge releases repository.
pub open spec fn spec_neoforge_item(l: NeoForgeLibrary, dir: Seq<char>, default_base: Seq<char>) -> Option<
    DownloadItemModel,
> {
    match l.artifact {
        Option::Some(a) => Option::Some(
            DownloadItemModel {
                url: a.url@,
                path: dir + "/"@ + a.path@,
                sha1: match a.sha1 {
                    Option::Some(s) => Option::Some(s@),
                    Option::None => Option::None,
                },
                size: a.size,
            },
        ),
        Option::None => crate::maven::spec_coord_item(
            crate::maven::CoordLibrary { name: l.name, url: l.url },
            dir,
            default_base,
        ),
    }
}

/// The download plan of an installer-emitted profile's libraries.
pub open spec fn spec_neoforge_plan(
    libs: Seq<NeoForgeLibrary>,
    dir: Seq<char>,
    default_base: Seq<char>,
) -> Seq<DownloadItemModel>
    decreases libs.len(),
{
    if libs.len() == 0 {
        Seq::<DownloadItemModel>::empty()
    } else {
        let rest = spec_neoforge_plan(libs.drop_first(), dir, default_base);
        match spec_neoforge_item(libs[0], dir, default_base) {
            Option::Some(it) => seq![it] + rest,
            Option::None => rest,
        }
    }
}

/// The default repository for NeoForge coordinate-only libraries.
pub fn neoforge_maven_base() -> (r: &'static str)
    ensures
        r@ == "https://maven.neoforged.net/releases/"@,
{
    "https://maven.neoforged.net/releases/"
}

/// Plans the library downloads of an installer-emitted profile below
/// `libraries_dir`.
pub fn plan_neoforge_libraries(
    libs: &Vec<NeoForgeLibrary>,
    libraries_dir: &str,
    default_base: &str,
) -> (r: Vec<DownloadItem>)
    ensures
        items_view(r@) == spec_neoforge_plan(libs@, libraries_dir@, default_base@),
        forall|k: int|
            0 <= k < r@.len() ==> spec_starts_with(#[trigger] r@[k]@.path, libraries_dir@ + "/"@),
{
    let ghost dirv = libraries_dir@;
    let ghost basev = default_base@;
    let mut out: Vec<DownloadItem> = Vec::new();
    let mut i: usize = 0;
    proof {
        assert(items_view(out@) =~= Seq::<DownloadItemModel>::empty());
        assert(libs@.skip(0) =~= libs@);
        assert(items_view(out@) + spec_neoforge_plan(libs@, dirv, basev) =~= spec_neoforge_plan(
            libs@,
            dirv,
            basev,
        ));
    }
    while i < libs.len()
        invariant
            i <= libs@.len(),
            dirv == libraries_dir@,
            basev == default_base@,
            spec_neoforge_plan(libs@, dirv, basev) == items_view(out@) + spec_neoforge_plan(
                libs@.skip(i as int),
                dirv,
                basev,
            ),
            forall|k: int|
                0 <= k < out@.len() ==> spec_starts_with(#[trigger] out@[k]@.path, dirv + "/"@),
        decreases libs@.len() - i,
    {
        let ghost old_out = items_view(out@);
        let ghost tail = libs@.skip(i as int);
        let lib = &libs[i];
        match &lib.artifact {
            Option::Some(a) => {
                let item = DownloadItem {
                    url: a.url.clone(),
                    path: join_path(libraries_dir, a.path.as_str()),
                    sha1: match &a.sha1 {
                        Option::Some(s) => Option::Some(s.clone()),
                        Option::None => Option::None,
                    },
                    size: a.size,
                };
                proof {
                    assert(item@ == spec_neoforge_item(libs@[i as int], dirv, basev).unwrap());
                    assert(item@.path.subrange(0, (dirv + "/"@).len() as int) =~= dirv + "/"@);
                }
                out.push(item);
            },
            Option::None => {
                match crate::maven::coordinate_rel_path(lib.name.as_str()) {
                    Some(rel) => {
                        let base = match &lib.url {
                            Option::Some(u) => u.as_str(),
                            Option::None => default_base,
                        };
                        let mut url = base.to_owned();
                        url.append(rel.as_str());
                        let path = join_path(libraries_dir, rel.as_str());
                        let item = DownloadItem {
                            url,
                            path,
                            sha1: Option::None,
                            size: Option::None,
                        };
                        proof {
                            assert(item@ == spec_neoforge_item(
                                libs@[i as int],
                                dirv,
                                basev,
                            ).unwrap());
                            assert(item@.path.subrange(0, (dirv + "/"@).len() as int) =~= dirv
                                + "/"@);
                        }
                        out.push(item);
                    },
                    None => {},
                }
            },
        }
        proof {
            assert(tail[0] == libs@[i as int]);
            assert(tail.drop_first() =~= libs@.skip(i + 1));
            match spec_neoforge_item(libs@[i as int], dirv, basev) {
                Option::Some(it) => {
                    assert(items_view(out@) =~= old_out.push(it));
                    assert(items_view(out@) =~= old_out + seq![it]);
                },
                Option::None => {
                    assert(items_view(out@) =~= old_out);
                },
            }
        }
        i += 1;
    }
    proof {
        assert(libs@.skip(libs@.len() as int) =~= Seq::<NeoForgeLibrary>::empty());
        assert(items_view(out@) =~= spec_neoforge_plan(libs@, dirv, basev));
    }
    out
}

} // verus!
