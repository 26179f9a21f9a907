//! Profiles: the identity tuple `(name, loader, loader_version,
//! minecraft_version)` bound to its on-disk layout.
//!
//! Paths are modelled as forward-slash strings below a data root; the host
//! shell converts them to platform paths.  Every directory of a profile lies
//! below its game directory, which is what keeps distinct profiles isolated
//! from one another.

use vstd::prelude::*;

use crate::text::spec_starts_with;

verus! {

/// Joins a directory and a relative path with a single `/`.
pub fn join_path(base: &str, rel: &str) -> (r: String)
    ensures
        r@ == base@ + "/"@ + rel@,
{
    let mut s = base.to_owned();
    s.append("/");
    s.append(rel);
    s
}

/// `p` lies strictly below directory `dir`.
pub open spec fn path_within(p: Seq<char>, dir: Seq<char>) -> bool {
    spec_starts_with(p, dir + "/"@)
}

/// A named installation of the game at a specific loader and game version.
pub struct Version {
    pub name: String,
    pub loader: String,
    pub loader_version: String,
    pub minecraft_version: String,
    pub data_root: String,
}

impl Version {
    /// The profile's root directory `<data_root>/<name>`.
    pub open spec fn spec_game_dir(&self) -> Seq<char> {
        self.data_root@ + "/"@ + self.name@
    }

    pub fn new(
        name: &str,
        loader: &str,
        loader_version: &str,
        minecraft_version: &str,
        data_root: &str,
    ) -> (r: Self)
        ensures
            r.name@ == name@,
            r.loader@ == loader@,
            r.loader_version@ == loader_version@,
            r.minecraft_version@ == minecraft_version@,
            r.data_root@ == data_root@,
    {
        Version {
            name: name.to_owned(),
            loader: loader.to_owned(),
            loader_version: loader_version.to_owned(),
            minecraft_version: minecraft_version.to_owned(),
            data_root: data_root.to_owned(),
        }
    }

    pub fn get_name(&self) -> (r: &str)
        ensures
            r@ == self.name@,
    {
        self.name.as_str()
    }

    pub fn get_game_dir(&self) -> (r: String)
        ensures
            r@ == self.spec_game_dir(),
    {
        join_path(self.data_root.as_str(), self.name.as_str())
    }

    pub fn get_libraries_dir(&self) -> (r: String)
        ensures
            r@ == self.spec_game_dir() + "/"@ + "libraries"@,
            path_within(r@, self.spec_game_dir()),
    {
        let dir = self.get_game_dir();
        let r = join_path(dir.as_str(), "libraries");
        proof {
            assert((self.spec_game_dir() + "/"@ + "libraries"@).subrange(
                0,
                (self.spec_game_dir() + "/"@).len() as int,
            ) =~= self.spec_game_dir() + "/"@);
        }
        r
    }

    pub fn get_assets_dir(&self) -> (r: String)
        ensures
            r@ == self.spec_game_dir() + "/"@ + "assets"@,
            path_within(r@, self.spec_game_dir()),
    {
        let dir = self.get_game_dir();
        let r = join_path(dir.as_str(), "assets");
        proof {
            assert((self.spec_game_dir() + "/"@ + "assets"@).subrange(
                0,
                (self.spec_game_dir() + "/"@).len() as int,
            ) =~= self.spec_game_dir() + "/"@);
        }
        r
    }

    pub fn get_natives_dir(&self) -> (r: String)
        ensures
            r@ == self.spec_game_dir() + "/"@ + "natives"@,
            path_within(r@, self.spec_game_dir()),
    {
        let dir = self.get_game_dir();
        let r = join_path(dir.as_str(), "natives");
        proof {
            assert((self.spec_game_dir() + "/"@ + "natives"@).subrange(
                0,
                (self.spec_game_dir() + "/"@).len() as int,
            ) =~= self.spec_game_dir() + "/"@);
        }
        r
    }

    /// The client (or loader-client) JAR `<game_dir>/<name>.jar`.
    pub fn get_client_path(&self) -> (r: String)
        ensures
            r@ == self.spec_game_dir() + "/"@ + self.name@ + ".jar"@,
            path_within(r@, self.spec_game_dir()),
    {
        let dir = self.get_game_dir();
        let mut file = self.name.clone();
        proof {
            // String::clone keeps the view.
            assert(file@ == self.name@);
        }
        file.append(".jar");
        let r = join_path(dir.as_str(), file.as_str());
        proof {
            assert(r@ =~= self.spec_game_dir() + "/"@ + self.name@ + ".jar"@);
            assert(r@.subrange(0, (self.spec_game_dir() + "/"@).len() as int) =~= self
                .spec_game_dir() + "/"@);
        }
        r
    }
}

/// A path below a subdirectory of a profile lies below the profile: what
/// the planners place under `libraries/`, `natives/` or `assets/` stays
/// inside the profile's directory.
pub proof fn lemma_within_prefix(p: Seq<char>, dir: Seq<char>, parent: Seq<char>)
    requires
        spec_starts_with(p, dir + "/"@),
        spec_starts_with(dir, parent + "/"@),
    ensures
        path_within(p, parent),
{
    reveal_strlit("/");
    let q = parent + "/"@;
    assert(forall|i: int| 0 <= i < dir.len() + 1 ==> p[i] == (dir + "/"@)[i]) by {
        assert(p.subrange(0, dir.len() as int + 1) == dir + "/"@);
    }
    assert(forall|i: int| 0 <= i < q.len() ==> dir[i] == q[i]) by {
        assert(dir.subrange(0, q.len() as int) == q);
    }
    assert(p.subrange(0, q.len() as int) =~= q);
}

/// Any path below one profile's directory lies outside every other profile's
/// directory: installs and uninstalls for profile `a` cannot touch profile
/// `b`.  Profile names contain no `/`.
pub proof fn lemma_profile_isolation(
    data_root: Seq<char>,
    name_a: Seq<char>,
    name_b: Seq<char>,
    p: Seq<char>,
)
    requires
        name_a != name_b,
        forall|i: int| 0 <= i < name_a.len() ==> name_a[i] != '/',
        forall|i: int| 0 <= i < name_b.len() ==> name_b[i] != '/',
        path_within(p, data_root + "/"@ + name_a),
    ensures
        !path_within(p, data_root + "/"@ + name_b),
{
    reveal_strlit("/");
    let da = data_root + "/"@ + name_a;
    let db = data_root + "/"@ + name_b;
    if path_within(p, db) {
        let la = da.len() as int;
        let lb = db.len() as int;
        assert(forall|i: int| 0 <= i < la + 1 ==> p[i] == (da + "/"@)[i]) by {
            assert(p.subrange(0, la + 1) == da + "/"@);
        }
        assert(forall|i: int| 0 <= i < lb + 1 ==> p[i] == (db + "/"@)[i]) by {
            assert(p.subrange(0, lb + 1) == db + "/"@);
        }
        assert(p[la] == '/');
        assert(p[lb] == '/');
        if la < lb {
            // The slash that ends `a`'s directory falls inside `b`'s name.
            let k = la - (data_root.len() as int + 1);
            assert(db[la] == name_b[k]);
            assert(name_b[k] == '/');
        } else if lb < la {
            let k = lb - (data_root.len() as int + 1);
            assert(da[lb] == name_a[k]);
            assert(name_a[k] == '/');
        } else {
            assert(name_a =~= da.subrange(data_root.len() as int + 1, la));
            assert(name_b =~= db.subrange(data_root.len() as int + 1, lb));
            assert(forall|i: int| 0 <= i < name_a.len() ==> name_a[i] == p[data_root.len() as int + 1 + i]
                && name_b[i] == p[data_root.len() as int + 1 + i]);
            assert(name_a =~= name_b);
        }
    }
}

} // verus!
