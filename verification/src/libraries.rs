//! The library fetcher's plan: which library JARs an install downloads,
//! where they land, and under which checks.
//!
//! A library is planned exactly when its rule block allows the current OS
//! and it carries a main artifact; the artifact's repository path is joined
//! below the profile's `libraries/` directory, so the plan never leaves the
//! profile.

use vstd::prelude::*;

use crate::download::{items_view, DownloadItem, DownloadItemModel};
use crate::manifest::LibraryInfo;
use crate::rules::{should_download_library, spec_library_allowed, Rule};
use crate::text::spec_starts_with;
use crate::version::join_path;

verus! {

/// The rule block of a library, as a sequence.
pub open spec fn spec_library_rules_view(l: LibraryInfo) -> Option<Seq<Rule>> {
    match l.rules {
        Option::None => Option::None,
        Option::Some(v) => Option::Some(v@),
    }
}

/// The planned download of one library, if any: its main artifact, landing
/// at `dir/<artifact path>` under its declared digest and size.
pub open spec fn spec_library_item(l: LibraryInfo, os: Seq<char>, dir: Seq<char>) -> Option<
    DownloadItemModel,
> {
    if spec_library_allowed(spec_library_rules_view(l), os) {
        match l.artifact {
            Option::Some(a) => Option::Some(
                DownloadItemModel {
                    url: a.url@,
                    path: dir + "/"@ + a.path@,
                    sha1: Option::Some(a.sha1@),
                    size: Option::Some(a.size),
                },
            ),
            Option::None => Option::None,
        }
    } else {
        Option::None
    }
}

/// The download plan of a library list, in order.
pub open spec fn spec_library_plan(libs: Seq<LibraryInfo>, os: Seq<char>, dir: Seq<char>) -> Seq<
    DownloadItemModel,
>
    decreases libs.len(),
{
    if libs.len() == 0 {
        Seq::<DownloadItemModel>::empty()
    } else {
        let rest = spec_library_plan(libs.drop_first(), os, dir);
        match spec_library_item(libs[0], os, dir) {
            Option::Some(it) => seq![it] + rest,
            Option::None => rest,
        }
    }
}

/// Every planned library path lies below the libraries directory.
pub proof fn lemma_library_plan_paths(libs: Seq<LibraryInfo>, os: Seq<char>, dir: Seq<char>)
    ensures
        forall|k: int|
            0 <= k < spec_library_plan(libs, os, dir).len() ==> spec_starts_with(
                #[trigger] spec_library_plan(libs, os, dir)[k].path,
                dir + "/"@,
            ),
    decreases libs.len(),
{
    if libs.len() > 0 {
        lemma_library_plan_paths(libs.drop_first(), os, dir);
        match spec_library_item(libs[0], os, dir) {
            Option::Some(it) => {
                assert(it.path.subrange(0, (dir + "/"@).len() as int) =~= dir + "/"@);
            },
            Option::None => {},
        }
    }
}

/// Plans the library downloads of a descriptor for the OS called `os`,
/// below `libraries_dir`.
pub fn plan_library_downloads(libs: &Vec<LibraryInfo>, os: &str, libraries_dir: &str) -> (r: Vec<
    DownloadItem,
>)
    ensures
        items_view(r@) == spec_library_plan(libs@, os@, libraries_dir@),
        forall|k: int|
            0 <= k < r@.len() ==> spec_starts_with(#[trigger] r@[k]@.path, libraries_dir@ + "/"@),
{
    let ghost dirv = libraries_dir@;
    let mut out: Vec<DownloadItem> = Vec::new();
    let mut i: usize = 0;
    proof {
        assert(items_view(out@) =~= Seq::<DownloadItemModel>::empty());
        assert(libs@.skip(0) =~= libs@);
        assert(items_view(out@) + spec_library_plan(libs@, os@, dirv) =~= spec_library_plan(
            libs@,
            os@,
            dirv,
        ));
    }
    while i < libs.len()
        invariant
            i <= libs@.len(),
            dirv == libraries_dir@,
            spec_library_plan(libs@, os@, dirv) == items_view(out@) + spec_library_plan(
                libs@.skip(i as int),
                os@,
                dirv,
            ),
        decreases libs@.len() - i,
    {
        let ghost old_out = items_view(out@);
        let ghost tail = libs@.skip(i as int);
        let lib = &libs[i];
        if should_download_library(&lib.rules, os) {
            match &lib.artifact {
                Option::Some(a) => {
                    let item = DownloadItem {
                        url: a.url.clone(),
                        path: join_path(libraries_dir, a.path.as_str()),
                        sha1: Option::Some(a.sha1.clone()),
                        size: Option::Some(a.size),
                    };
                    proof {
                        assert(item@ == spec_library_item(libs@[i as int], os@, dirv).unwrap());
                    }
                    out.push(item);
                },
                Option::None => {},
            }
        }
        proof {
            assert(tail[0] == libs@[i as int]);
            assert(tail.drop_first() =~= libs@.skip(i + 1));
            match spec_library_item(libs@[i as int], os@, dirv) {
                Option::Some(it) => {
                    assert(items_view(out@) =~= old_out.push(it));
                    assert(items_view(out@) =~= old_out + seq![it]);
                },
                Option::None => {
                    assert(items_view(out@) =~= old_out);
                },
            }
        }
        i += 1;
    }
    proof {
        assert(libs@.skip(libs@.len() as int) =~= Seq::<LibraryInfo>::empty());
        assert(items_view(out@) =~= spec_library_plan(libs@, os@, dirv));
        lemma_library_plan_paths(libs@, os@, dirv);
        assert(forall|k: int| 0 <= k < out@.len() ==> items_view(out@)[k] == #[trigger] out@[k]@);
    }
    out
}

} // verus!
