//! Maven coordinates: mapping `group:artifact:version` onto the repository
//! path `group/with/slashes/artifact/version/artifact-version.jar`.
//!
//! Coordinate-only libraries (the shape used by the Fabric, Quilt and
//! NeoForge metadata) are downloaded from a base URL joined with this path.

use vstd::prelude::*;

use crate::download::{items_view, DownloadItem, DownloadItemModel};
use crate::text::{spec_split_char, spec_starts_with, split_char, string_push_char};
use crate::version::join_path;

verus! {

/// A group id with every `.` replaced by `/`.
pub open spec fn spec_dots_to_slashes(g: Seq<char>) -> Seq<char> {
    g.map_values(|c: char| if c == '.' { '/' } else { c })
}

/// The repository path of the coordinate `(group, artifact, version)`.
pub open spec fn spec_maven_rel_path(g: Seq<char>, a: Seq<char>, v: Seq<char>) -> Seq<char> {
    spec_dots_to_slashes(g) + "/"@ + a + "/"@ + v + "/"@ + a + "-"@ + v + ".jar"@
}

/// Replaces every `.` with `/`.
pub fn dots_to_slashes(g: &str) -> (r: String)
    ensures
        r@ == spec_dots_to_slashes(g@),
{
    let n = g.unicode_len();
    let mut r = String::new();
    let mut i: usize = 0;
    proof {
        assert(r@ =~= spec_dots_to_slashes(g@.take(0)));
    }
    while i < n
        invariant
            n == g@.len(),
            i <= n,
            r@ == spec_dots_to_slashes(g@.take(i as int)),
        decreases n - i,
    {
        let c = g.get_char(i);
        if c == '.' {
            string_push_char(&mut r, '/');
        } else {
            string_push_char(&mut r, c);
        }
        proof {
            assert(r@ =~= spec_dots_to_slashes(g@.take(i + 1)));
        }
        i += 1;
    }
    proof {
        assert(g@.take(n as int) =~= g@);
    }
    r
}

/// The repository path of a `group:artifact:version` coordinate, or `None`
/// when the coordinate does not have exactly three `:`-separated parts.
pub fn coordinate_rel_path(coord: &str) -> (r: Option<String>)
    ensures
        match r {
            Some(p) => spec_split_char(coord@, ':').len() == 3 && p@ == spec_maven_rel_path(
                spec_split_char(coord@, ':')[0],
                spec_split_char(coord@, ':')[1],
                spec_split_char(coord@, ':')[2],
            ),
            None => spec_split_char(coord@, ':').len() != 3,
        },
{
    let parts = split_char(coord, ':');
    if parts.len() != 3 {
        proof {
            assert(parts.deep_view().len() == parts@.len());
        }
        return None;
    }
    proof {
        assert(parts.deep_view().len() == parts@.len());
        assert(parts@[0]@ == parts.deep_view()[0]);
        assert(parts@[1]@ == parts.deep_view()[1]);
        assert(parts@[2]@ == parts.deep_view()[2]);
    }
    let group = &parts[0];
    let artifact = &parts[1];
    let ver = &parts[2];
    let mut p = dots_to_slashes(group.as_str());
    p.append("/");
    p.append(artifact.as_str());
    p.append("/");
    p.append(ver.as_str());
    p.append("/");
    p.append(artifact.as_str());
    p.append("-");
    p.append(ver.as_str());
    p.append(".jar");
    Some(p)
}

/// A library declared by coordinate alone, with an optional repository
/// base URL.
pub struct CoordLibrary {
    pub name: String,
    pub url: Option<String>,
}

/// The planned download of one coordinate-only library: its repository path
/// below `dir`, fetched from the library's base URL (or the loader's
/// default), without a digest.  A malformed coordinate plans nothing.
pub open spec fn spec_coord_item(
    l: CoordLibrary,
    dir: Seq<char>,
    default_base: Seq<char>,
) -> Option<DownloadItemModel> {
    let parts = spec_split_char(l.name@, ':');
    if parts.len() == 3 {
        let rel = spec_maven_rel_path(parts[0], parts[1], parts[2]);
        let base = match l.url {
            Option::Some(u) => u@,
            Option::None => default_base,
        };
        Option::Some(
            DownloadItemModel {
                url: base + rel,
                path: dir + "/"@ + rel,
                sha1: Option::None,
                size: Option::None,
            },
        )
    } else {
        Option::None
    }
}

/// The download plan of a coordinate-only library list, in order.
pub open spec fn spec_coord_plan(
    libs: Seq<CoordLibrary>,
    dir: Seq<char>,
    default_base: Seq<char>,
) -> Seq<DownloadItemModel>
    decreases libs.len(),
{
    if libs.len() == 0 {
        Seq::<DownloadItemModel>::empty()
    } else {
        let rest = spec_coord_plan(libs.drop_first(), dir, default_base);
        match spec_coord_item(libs[0], dir, default_base) {
            Option::Some(it) => seq![it] + rest,
            Option::None => rest,
        }
    }
}

/// Plans the downloads of coordinate-only libraries below `libraries_dir`.
/// These carry no digest: content verification does not apply to them.
pub fn plan_coordinate_downloads(
    libs: &Vec<CoordLibrary>,
    libraries_dir: &str,
    default_base: &str,
) -> (r: Vec<DownloadItem>)
    ensures
        items_view(r@) == spec_coord_plan(libs@, libraries_dir@, default_base@),
        forall|k: int|
            0 <= k < r@.len() ==> spec_starts_with(#[trigger] r@[k]@.path, libraries_dir@ + "/"@),
{
    let ghost dirv = libraries_dir@;
    let ghost basev = default_base@;
    let mut out: Vec<DownloadItem> = Vec::new();
    let mut i: usize = 0;
    proof {
        assert(items_view(out@) =~= Seq::<DownloadItemModel>::empty());
        assert(libs@.skip(0) =~= libs@);
        assert(items_view(out@) + spec_coord_plan(libs@, dirv, basev) =~= spec_coord_plan(
            libs@,
            dirv,
            basev,
        ));
    }
    while i < libs.len()
        invariant
            i <= libs@.len(),
            dirv == libraries_dir@,
            basev == default_base@,
            spec_coord_plan(libs@, dirv, basev) == items_view(out@) + spec_coord_plan(
                libs@.skip(i as int),
                dirv,
                basev,
            ),
            forall|k: int|
                0 <= k < out@.len() ==> spec_starts_with(#[trigger] out@[k]@.path, dirv + "/"@),
        decreases libs@.len() - i,
    {
        let ghost old_out = items_view(out@);
        let ghost tail = libs@.skip(i as int);
        let lib = &libs[i];
        match coordinate_rel_path(lib.name.as_str()) {
            Some(rel) => {
                let base = match &lib.url {
                    Option::Some(u) => u.as_str(),
                    Option::None => default_base,
                };
                let mut url = base.to_owned();
                url.append(rel.as_str());
                let path = join_path(libraries_dir, rel.as_str());
                let item = DownloadItem { url, path, sha1: Option::None, size: Option::None };
                proof {
                    assert(item@ == spec_coord_item(libs@[i as int], dirv, basev).unwrap());
                    assert(item@.path.subrange(0, (dirv + "/"@).len() as int) =~= dirv + "/"@);
                }
                out.push(item);
            },
            None => {},
        }
        proof {
            assert(tail[0] == libs@[i as int]);
            assert(tail.drop_first() =~= libs@.skip(i + 1));
            match spec_coord_item(libs@[i as int], dirv, basev) {
                Option::Some(it) => {
                    assert(items_view(out@) =~= old_out.push(it));
                    assert(items_view(out@) =~= old_out + seq![it]);
                },
                Option::None => {
                    assert(items_view(out@) =~= old_out);
                },
            }
        }
        i += 1;
    }
    proof {
        assert(libs@.skip(libs@.len() as int) =~= Seq::<CoordLibrary>::empty());
        assert(items_view(out@) =~= spec_coord_plan(libs@, dirv, basev));
    }
    out
}

} // verus!
