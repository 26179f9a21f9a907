//! The native fetcher's plan: for every library that ships a native
//! classifier for the current OS, fetch the classifier JAR into `natives/`,
//! extract it there under the library's exclude prefixes, and remove the
//! source JAR.
//!
//! The removal step is what keeps `natives/` free of archives after an
//! install.

use vstd::prelude::*;

use crate::download::{DownloadItem, DownloadItemModel};
use crate::error::LauncherError;
use crate::libraries::spec_library_rules_view;
use crate::manifest::{ArtifactInfo, LibraryInfo};
use crate::rules::{should_download_library, spec_library_allowed};
use crate::system::Architecture;
use crate::text::{
    basename, clone_strings, replace_all, spec_basename, spec_ends_with, spec_replace_all,
    spec_starts_with, str_eq, str_ends_with,
};
use crate::version::join_path;

verus! {

/// One step of the native install pipeline, in execution order.
pub enum NativeAction {
    /// Fetch and verify a native classifier JAR.
    Fetch(DownloadItem),
    /// Extract an archive into the natives directory, skipping entries under
    /// the exclude prefixes.
    Extract { archive: String, dest: String, excludes: Vec<String> },
    /// Delete a file.
    Remove { path: String },
}

/// The mathematical image of a `NativeAction`.
pub enum NativeActionModel {
    Fetch(DownloadItemModel),
    Extract { archive: Seq<char>, dest: Seq<char>, excludes: Seq<Seq<char>> },
    Remove { path: Seq<char> },
}

impl View for NativeAction {
    type V = NativeActionModel;

    open spec fn view(&self) -> NativeActionModel {
        match self {
            NativeAction::Fetch(item) => NativeActionModel::Fetch(item@),
            NativeAction::Extract { archive, dest, excludes } => NativeActionModel::Extract {
                archive: archive@,
                dest: dest@,
                excludes: excludes.deep_view(),
            },
            NativeAction::Remove { path } => NativeActionModel::Remove { path: path@ },
        }
    }
}

/// The images of a sequence of native actions.
pub open spec fn actions_view(s: Seq<NativeAction>) -> Seq<NativeActionModel> {
    s.map_values(|a: NativeAction| a@)
}

/// First value of a string-to-string association list whose key reads `key`.
pub open spec fn spec_assoc_str(entries: Seq<(String, String)>, key: Seq<char>) -> Option<
    Seq<char>,
>
    decreases entries.len(),
{
    if entries.len() == 0 {
        Option::None
    } else if entries[0].0@ == key {
        Option::Some(entries[0].1@)
    } else {
        spec_assoc_str(entries.drop_first(), key)
    }
}

/// First artifact of a classifier association list whose key reads `key`.
pub open spec fn spec_assoc_artifact(entries: Seq<(String, ArtifactInfo)>, key: Seq<char>) -> Option<
    ArtifactInfo,
>
    decreases entries.len(),
{
    if entries.len() == 0 {
        Option::None
    } else if entries[0].0@ == key {
        Option::Some(entries[0].1)
    } else {
        spec_assoc_artifact(entries.drop_first(), key)
    }
}

/// Looks up the first value under `key` in a string association list.
pub fn assoc_str_lookup(entries: &Vec<(String, String)>, key: &str) -> (r: Option<String>)
    ensures
        match r {
            Some(v) => spec_assoc_str(entries@, key@) == Option::Some(v@),
            None => spec_assoc_str(entries@, key@) is None,
        },
{
    let mut i: usize = 0;
    proof {
        assert(entries@.skip(0) =~= entries@);
    }
    while i < entries.len()
        invariant
            i <= entries@.len(),
            spec_assoc_str(entries@, key@) == spec_assoc_str(entries@.skip(i as int), key@),
        decreases entries@.len() - i,
    {
        let ghost tail = entries@.skip(i as int);
        proof {
            assert(tail[0] == entries@[i as int]);
            assert(tail.drop_first() =~= entries@.skip(i + 1));
        }
        if str_eq(entries[i].0.as_str(), key) {
            return Some(entries[i].1.clone());
        }
        i += 1;
    }
    None
}

/// Looks up the first artifact under `key` in a classifier association
/// list, returning its index.
pub fn assoc_artifact_index(entries: &Vec<(String, ArtifactInfo)>, key: &str) -> (r: Option<usize>)
    ensures
        match r {
            Some(i) => i < entries@.len() && spec_assoc_artifact(entries@, key@) == Option::Some(
                entries@[i as int].1,
            ),
            None => spec_assoc_artifact(entries@, key@) is None,
        },
{
    let mut i: usize = 0;
    proof {
        assert(entries@.skip(0) =~= entries@);
    }
    while i < entries.len()
        invariant
            i <= entries@.len(),
            spec_assoc_artifact(entries@, key@) == spec_assoc_artifact(
                entries@.skip(i as int),
                key@,
            ),
        decreases entries@.len() - i,
    {
        let ghost tail = entries@.skip(i as int);
        proof {
            assert(tail[0] == entries@[i as int]);
            assert(tail.drop_first() =~= entries@.skip(i + 1));
        }
        if str_eq(entries[i].0.as_str(), key) {
            return Some(i);
        }
        i += 1;
    }
    None
}

/// The architecture token substituted for `${arch}` in native classifier
/// templates: `32` on x86, `64` otherwise.
pub fn arch_token(arch: Architecture) -> (r: &'static str)
    ensures
        r@ == (if arch is X86 {
            "32"@
        } else {
            "64"@
        }),
{
    match arch {
        Architecture::X86 => "32",
        _ => "64",
    }
}

/// The native classifier of a library for the OS called `os`: its template
/// for that OS with `${arch}` substituted.
pub open spec fn spec_native_classifier(
    l: LibraryInfo,
    os: Seq<char>,
    arch_tok: Seq<char>,
) -> Option<Seq<char>> {
    match spec_assoc_str(l.natives@, os) {
        Option::Some(t) => Option::Some(spec_replace_all(t, "${arch}"@, arch_tok)),
        Option::None => Option::None,
    }
}

/// The native pipeline steps one library contributes: nothing when its
/// rules forbid the OS, it has no native for it, or the classifier is not
/// among its downloads; otherwise a fetch of the classifier JAR into the
/// natives directory, followed — for an archive named `*.jar` — by its
/// extraction there and the removal of the fetched JAR.
pub open spec fn spec_native_step(
    l: LibraryInfo,
    os: Seq<char>,
    arch_tok: Seq<char>,
    natives_dir: Seq<char>,
) -> Seq<NativeActionModel> {
    if !spec_library_allowed(spec_library_rules_view(l), os) {
        Seq::<NativeActionModel>::empty()
    } else {
        match spec_native_classifier(l, os, arch_tok) {
            Option::None => Seq::<NativeActionModel>::empty(),
            Option::Some(cl) => match spec_assoc_artifact(l.classifiers@, cl) {
                Option::None => Seq::<NativeActionModel>::empty(),
                Option::Some(a) => {
                    let target = natives_dir + "/"@ + spec_basename(a.path@);
                    let fetch = NativeActionModel::Fetch(
                        DownloadItemModel {
                            url: a.url@,
                            path: target,
                            sha1: Option::Some(a.sha1@),
                            size: Option::Some(a.size),
                        },
                    );
                    if spec_ends_with(spec_basename(a.path@), ".jar"@) {
                        seq![
                            fetch,
                            NativeActionModel::Extract {
                                archive: target,
                                dest: natives_dir,
                                excludes: l.extract_excludes.deep_view(),
                            },
                            NativeActionModel::Remove { path: target },
                        ]
                    } else {
                        seq![fetch]
                    }
                },
            },
        }
    }
}

/// The native pipeline steps of a whole library list, in order.
pub open spec fn spec_natives_plan(
    libs: Seq<LibraryInfo>,
    os: Seq<char>,
    arch_tok: Seq<char>,
    natives_dir: Seq<char>,
) -> Seq<NativeActionModel>
    decreases libs.len(),
{
    if libs.len() == 0 {
        Seq::<NativeActionModel>::empty()
    } else {
        spec_native_step(libs[0], os, arch_tok, natives_dir) + spec_natives_plan(
            libs.drop_first(),
            os,
            arch_tok,
            natives_dir,
        )
    }
}

/// The steps one library contributes, executably.
pub fn native_step(l: &LibraryInfo, os: &str, arch: Architecture, natives_dir: &str) -> (r: Vec<
    NativeAction,
>)
    ensures
        actions_view(r@) == spec_native_step(
            *l,
            os@,
            (if arch is X86 {
                "32"@
            } else {
                "64"@
            }),
            natives_dir@,
        ),
{
    let ghost at: Seq<char> = if arch is X86 {
        "32"@
    } else {
        "64"@
    };
    let mut out: Vec<NativeAction> = Vec::new();
    if !should_download_library(&l.rules, os) {
        proof {
            assert(actions_view(out@) =~= spec_native_step(*l, os@, at, natives_dir@));
        }
        return out;
    }
    let template = match assoc_str_lookup(&l.natives, os) {
        Some(t) => t,
        None => {
            proof {
                assert(actions_view(out@) =~= spec_native_step(*l, os@, at, natives_dir@));
            }
            return out;
        },
    };
    proof {
        reveal_strlit("${arch}");
    }
    let classifier = replace_all(template.as_str(), "${arch}", arch_token(arch));
    let idx = match assoc_artifact_index(&l.classifiers, classifier.as_str()) {
        Some(i) => i,
        None => {
            proof {
                assert(actions_view(out@) =~= spec_native_step(*l, os@, at, natives_dir@));
            }
            return out;
        },
    };
    let a = &l.classifiers[idx].1;
    let base = basename(a.path.as_str());
    let target = join_path(natives_dir, base.as_str());
    let is_archive = str_ends_with(base.as_str(), ".jar");
    let fetch = NativeAction::Fetch(
        DownloadItem {
            url: a.url.clone(),
            path: target,
            sha1: Option::Some(a.sha1.clone()),
            size: Option::Some(a.size),
        },
    );
    out.push(fetch);
    if is_archive {
        let archive = join_path(natives_dir, base.as_str());
        let dest = natives_dir.to_owned();
        let excludes = clone_strings(&l.extract_excludes);
        out.push(NativeAction::Extract { archive, dest, excludes });
        let path = join_path(natives_dir, base.as_str());
        out.push(NativeAction::Remove { path });
    }
    proof {
        assert(actions_view(out@) =~= spec_native_step(*l, os@, at, natives_dir@));
    }
    out
}

/// Plans the native pipeline of a descriptor's library list for the OS
/// called `os`, below `natives_dir`.
pub fn plan_natives(libs: &Vec<LibraryInfo>, os: &str, arch: Architecture, natives_dir: &str) -> (r:
    Vec<NativeAction>)
    ensures
        actions_view(r@) == spec_natives_plan(
            libs@,
            os@,
            (if arch is X86 {
                "32"@
            } else {
                "64"@
            }),
            natives_dir@,
        ),
{
    let ghost at: Seq<char> = if arch is X86 {
        "32"@
    } else {
        "64"@
    };
    let mut out: Vec<NativeAction> = Vec::new();
    let mut i: usize = 0;
    proof {
        assert(libs@.skip(0) =~= libs@);
        assert(actions_view(out@) =~= Seq::<NativeActionModel>::empty());
        assert(actions_view(out@) + spec_natives_plan(libs@, os@, at, natives_dir@)
            =~= spec_natives_plan(libs@, os@, at, natives_dir@));
    }
    while i < libs.len()
        invariant
            i <= libs@.len(),
            at == (if arch is X86 {
                "32"@
            } else {
                "64"@
            }),
            spec_natives_plan(libs@, os@, at, natives_dir@) == actions_view(out@)
                + spec_natives_plan(libs@.skip(i as int), os@, at, natives_dir@),
        decreases libs@.len() - i,
    {
        let ghost old_out = actions_view(out@);
        let ghost tail = libs@.skip(i as int);
        let mut step = native_step(&libs[i], os, arch, natives_dir);
        let ghost stepv = actions_view(step@);
        out.append(&mut step);
        proof {
            assert(tail[0] == libs@[i as int]);
            assert(tail.drop_first() =~= libs@.skip(i + 1));
            assert(actions_view(out@) =~= old_out + stepv);
        }
        i += 1;
    }
    proof {
        assert(libs@.skip(libs@.len() as int) =~= Seq::<LibraryInfo>::empty());
        assert(actions_view(out@) + Seq::<NativeActionModel>::empty() =~= actions_view(out@));
    }
    out
}

/// The native pipeline never leaves the natives directory: every fetched,
/// extracted or removed file lies below it, and every extraction lands in
/// it.
pub proof fn lemma_natives_plan_within(
    libs: Seq<LibraryInfo>,
    os: Seq<char>,
    arch_tok: Seq<char>,
    natives_dir: Seq<char>,
    k: int,
)
    requires
        0 <= k < spec_natives_plan(libs, os, arch_tok, natives_dir).len(),
    ensures
        match spec_natives_plan(libs, os, arch_tok, natives_dir)[k] {
            NativeActionModel::Fetch(item) => spec_starts_with(item.path, natives_dir + "/"@),
            NativeActionModel::Extract { archive, dest, excludes } => spec_starts_with(
                archive,
                natives_dir + "/"@,
            ) && dest == natives_dir,
            NativeActionModel::Remove { path } => spec_starts_with(path, natives_dir + "/"@),
        },
    decreases libs.len(),
{
    let plan = spec_natives_plan(libs, os, arch_tok, natives_dir);
    let step = spec_native_step(libs[0], os, arch_tok, natives_dir);
    if k < step.len() {
        let a = spec_assoc_artifact(
            libs[0].classifiers@,
            spec_native_classifier(libs[0], os, arch_tok).unwrap(),
        ).unwrap();
        let target = natives_dir + "/"@ + spec_basename(a.path@);
        assert(target.subrange(0, (natives_dir + "/"@).len() as int) =~= natives_dir + "/"@);
        assert(plan[k] == step[k]);
    } else {
        lemma_natives_plan_within(libs.drop_first(), os, arch_tok, natives_dir, k - step.len());
        let rest = spec_natives_plan(libs.drop_first(), os, arch_tok, natives_dir);
        assert(plan[k] == rest[k - step.len()]);
    }
}

/// No archive survives the native pipeline: every fetch of a `*.jar` into
/// the natives directory is followed by the removal of exactly that file.
pub proof fn lemma_no_residual_archives(
    libs: Seq<LibraryInfo>,
    os: Seq<char>,
    arch_tok: Seq<char>,
    natives_dir: Seq<char>,
    k: int,
    item: DownloadItemModel,
)
    requires
        0 <= k < spec_natives_plan(libs, os, arch_tok, natives_dir).len(),
        spec_natives_plan(libs, os, arch_tok, natives_dir)[k] == NativeActionModel::Fetch(item),
        spec_ends_with(item.path, ".jar"@),
    ensures
        exists|m: int|
            k < m < spec_natives_plan(libs, os, arch_tok, natives_dir).len()
                && spec_natives_plan(libs, os, arch_tok, natives_dir)[m]
                == (NativeActionModel::Remove { path: item.path }),
    decreases libs.len(),
{
    reveal_strlit(".jar");
    reveal_strlit("/");
    let plan = spec_natives_plan(libs, os, arch_tok, natives_dir);
    let step = spec_native_step(libs[0], os, arch_tok, natives_dir);
    let rest = spec_natives_plan(libs.drop_first(), os, arch_tok, natives_dir);
    if k < step.len() {
        // The fetch stands inside the first library's step.
        assert(step[k] == plan[k]);
        if step.len() == 3 {
            assert(plan[k + 2] == step[2]);
            assert(step[2] == (NativeActionModel::Remove { path: item.path }));
        } else {
            // A single-action step fetches a file whose name does not end in
            // `.jar`; its target path cannot end in `.jar` either.
            assert(step.len() == 1 && k == 0);
            let a = spec_assoc_artifact(
                libs[0].classifiers@,
                spec_native_classifier(libs[0], os, arch_tok).unwrap(),
            ).unwrap();
            let base = spec_basename(a.path@);
            let target = natives_dir + "/"@ + base;
            assert(!spec_ends_with(base, ".jar"@));
            assert(item.path == target);
            if base.len() >= 4 {
                assert(target.subrange(target.len() - 4, target.len() as int) =~= base.subrange(
                    base.len() - 4,
                    base.len() as int,
                ));
                assert(false);
            } else {
                // One of the last four characters of the target is the `/`
                // before the short name, and `.jar` holds no `/`.
                let slash = natives_dir.len() as int;
                assert(target[slash] == '/');
                assert(target.len() - 4 <= slash < target.len());
                assert(target.subrange(target.len() - 4, target.len() as int) == ".jar"@);
                assert(".jar"@[slash - (target.len() - 4)] == '/');
                assert(false);
            }
        }
    } else {
        lemma_no_residual_archives(
            libs.drop_first(),
            os,
            arch_tok,
            natives_dir,
            k - step.len(),
            item,
        );
        let m0 = choose|m0: int|
            k - step.len() < m0 < rest.len() && rest[m0] == (NativeActionModel::Remove {
                path: item.path,
            });
        assert(plan[m0 + step.len()] == rest[m0]);
    }
}

} // verus!
