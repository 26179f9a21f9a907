//! The launch argument builder: the classpath joined from the JARs below
//! `libraries/` plus the client JAR, and the full argument vector handed to
//! the runtime.
//!
//! The classpath keeps exactly the entries it was built from, whatever order
//! a directory walk produced them in; identity values come from the caller.

use vstd::prelude::*;

use crate::text::{lemma_split_char_none, lemma_split_char_peel, spec_split_char, string_push_char};

verus! {

/// Joining parts with a separator character.
pub open spec fn spec_join(parts: Seq<Seq<char>>, sep: char) -> Seq<char>
    decreases parts.len(),
{
    if parts.len() == 0 {
        Seq::<char>::empty()
    } else if parts.len() == 1 {
        parts[0]
    } else {
        parts[0] + seq![sep] + spec_join(parts.drop_first(), sep)
    }
}

/// Appending a part to a join extends it by a separator and the part.
pub proof fn lemma_join_push(parts: Seq<Seq<char>>, x: Seq<char>, sep: char)
    requires
        parts.len() > 0,
    ensures
        spec_join(parts.push(x), sep) == spec_join(parts, sep) + seq![sep] + x,
    decreases parts.len(),
{
    if parts.len() == 1 {
        let p = parts.push(x);
        assert(p.drop_first() =~= seq![x]);
        assert(spec_join(p, sep) == p[0] + seq![sep] + spec_join(p.drop_first(), sep));
        assert(spec_join(parts, sep) + seq![sep] + x =~= parts[0] + seq![sep] + x);
    } else {
        lemma_join_push(parts.drop_first(), x, sep);
        let p = parts.push(x);
        assert(p.drop_first() =~= parts.drop_first().push(x));
        assert(spec_join(p, sep) =~= spec_join(parts, sep) + seq![sep] + x);
    }
}

/// Splitting a join recovers the parts, when no part holds the separator.
pub proof fn lemma_split_join(parts: Seq<Seq<char>>, sep: char)
    requires
        parts.len() >= 1,
        forall|i: int, j: int|
            0 <= i < parts.len() && 0 <= j < parts[i].len() ==> #[trigger] parts[i][j] != sep,
    ensures
        spec_split_char(spec_join(parts, sep), sep) == parts,
    decreases parts.len(),
{
    let s = spec_join(parts, sep);
    if parts.len() == 1 {
        lemma_split_char_none(s, sep);
        assert(seq![s] =~= parts);
    } else {
        let rest = parts.drop_first();
        lemma_split_join(rest, sep);
        let l0 = parts[0].len() as int;
        assert(s == parts[0] + seq![sep] + spec_join(rest, sep));
        assert(s[l0] == sep);
        assert(forall|k: int| 0 <= k < l0 ==> s[k] == parts[0][k] && s[k] != sep);
        lemma_split_char_peel(s, sep, l0);
        assert(s.subrange(0, l0) =~= parts[0]);
        assert(s.subrange(l0 + 1, s.len() as int) =~= spec_join(rest, sep));
        assert(seq![parts[0]] + rest =~= parts);
    }
}

/// Joins parts with a separator character.
pub fn join_with_char(parts: &Vec<String>, sep: char) -> (r: String)
    ensures
        r@ == spec_join(parts.deep_view(), sep),
{
    let mut r = String::new();
    let mut i: usize = 0;
    proof {
        assert(parts.deep_view().take(0) =~= Seq::<Seq<char>>::empty());
        assert(r@ =~= spec_join(parts.deep_view().take(0), sep));
    }
    while i < parts.len()
        invariant
            i <= parts@.len(),
            parts.deep_view().len() == parts@.len(),
            r@ == spec_join(parts.deep_view().take(i as int), sep),
        decreases parts@.len() - i,
    {
        let ghost pre = parts.deep_view().take(i as int);
        if i > 0 {
            string_push_char(&mut r, sep);
        }
        r.append(parts[i].as_str());
        proof {
            let now = parts.deep_view().take(i + 1);
            assert(now =~= pre.push(parts@[i as int]@));
            if i == 0 {
                assert(pre.len() == 0);
                assert(now.len() == 1 && now[0] == parts@[0]@);
                assert(r@ =~= spec_join(now, sep));
            } else {
                lemma_join_push(pre, parts@[i as int]@, sep);
                assert(r@ =~= spec_join(pre, sep) + seq![sep] + parts@[i as int]@);
            }
        }
        i += 1;
    }
    proof {
        assert(parts.deep_view().take(parts@.len() as int) =~= parts.deep_view());
    }
    r
}

/// Builds the classpath: the library JARs in walk order, then the client
/// JAR, joined with the platform's classpath separator.
pub fn build_classpath(jars: &Vec<String>, client_jar: &str, sep: char) -> (r: String)
    ensures
        r@ == spec_join(jars.deep_view().push(client_jar@), sep),
{
    let mut parts = crate::text::clone_strings(jars);
    parts.push(client_jar.to_owned());
    proof {
        assert(parts.deep_view() =~= jars.deep_view().push(client_jar@));
    }
    join_with_char(&parts, sep)
}

/// Launching is insensitive to the walk order of `libraries/`: classpaths
/// built from two walks that found the same JARs — in any order — hold
/// exactly the same entries.
pub proof fn lemma_classpath_order_insensitive(
    jars1: Seq<Seq<char>>,
    jars2: Seq<Seq<char>>,
    client: Seq<char>,
    sep: char,
)
    requires
        jars1.to_multiset() == jars2.to_multiset(),
        forall|i: int, j: int|
            0 <= i < jars1.len() && 0 <= j < jars1[i].len() ==> #[trigger] jars1[i][j] != sep,
        forall|i: int, j: int|
            0 <= i < jars2.len() && 0 <= j < jars2[i].len() ==> #[trigger] jars2[i][j] != sep,
        forall|j: int| 0 <= j < client.len() ==> client[j] != sep,
    ensures
        spec_split_char(spec_join(jars1.push(client), sep), sep).to_multiset() == spec_split_char(
            spec_join(jars2.push(client), sep),
            sep,
        ).to_multiset(),
{
    broadcast use vstd::seq_lib::group_seq_properties;

    let p1 = jars1.push(client);
    let p2 = jars2.push(client);
    assert(forall|i: int, j: int|
        0 <= i < p1.len() && 0 <= j < p1[i].len() ==> #[trigger] p1[i][j] != sep);
    assert(forall|i: int, j: int|
        0 <= i < p2.len() && 0 <= j < p2[i].len() ==> #[trigger] p2[i][j] != sep);
    lemma_split_join(p1, sep);
    lemma_split_join(p2, sep);
    jars1.to_multiset_ensures();
    jars2.to_multiset_ensures();
    assert(p1.to_multiset() =~= jars1.to_multiset().insert(client));
    assert(p2.to_multiset() =~= jars2.to_multiset().insert(client));
}

/// What the launcher does when the walk of `libraries/` yields `jar_count`
/// JARs: use them; re-run the library download once; or fail.
#[derive(Clone, Copy, PartialEq, Eq, Debug, Structural)]
pub enum WalkDecision {
    UseJars,
    RetryDownload,
    Fail,
}

/// An empty library tree triggers exactly one re-download; a second empty
/// walk is fatal.
pub fn libraries_walk_decision(jar_count: usize, already_retried: bool) -> (r: WalkDecision)
    ensures
        r == (if jar_count > 0 {
            WalkDecision::UseJars
        } else if !already_retried {
            WalkDecision::RetryDownload
        } else {
            WalkDecision::Fail
        }),
{
    if jar_count > 0 {
        WalkDecision::UseJars
    } else if !already_retried {
        WalkDecision::RetryDownload
    } else {
        WalkDecision::Fail
    }
}

/// The full argument vector: JVM flags, classpath, main class, then the
/// game arguments.  Identity values (username, uuid, token) come from the
/// caller.
pub fn build_arguments(
    natives_dir: &str,
    classpath: &str,
    main_class: &str,
    username: &str,
    game_version: &str,
    game_dir: &str,
    assets_dir: &str,
    asset_index: &str,
    uuid: &str,
    access_token: &str,
) -> (r: Vec<String>)
    ensures
        r.deep_view() == seq![
            "-Xms1024M"@,
            "-Xmx2048M"@,
            "-Djava.library.path="@ + natives_dir@,
            "-Dfabric.development=false"@,
            "-cp"@,
            classpath@,
            main_class@,
            "--username"@,
            username@,
            "--version"@,
            game_version@,
            "--gameDir"@,
            game_dir@,
            "--assetsDir"@,
            assets_dir@,
            "--assetIndex"@,
            asset_index@,
            "--uuid"@,
            uuid@,
            "--accessToken"@,
            access_token@,
            "--userProperties"@,
            "{}"@,
        ],
{
    let mut library_path = String::from_str("-Djava.library.path=");
    library_path.append(natives_dir);
    let mut r: Vec<String> = Vec::new();
    r.push(String::from_str("-Xms1024M"));
    r.push(String::from_str("-Xmx2048M"));
    r.push(library_path);
    r.push(String::from_str("-Dfabric.development=false"));
    r.push(String::from_str("-cp"));
    r.push(classpath.to_owned());
    r.push(main_class.to_owned());
    r.push(String::from_str("--username"));
    r.push(username.to_owned());
    r.push(String::from_str("--version"));
    r.push(game_version.to_owned());
    r.push(String::from_str("--gameDir"));
    r.push(game_dir.to_owned());
    r.push(String::from_str("--assetsDir"));
    r.push(assets_dir.to_owned());
    r.push(String::from_str("--assetIndex"));
    r.push(asset_index.to_owned());
    r.push(String::from_str("--uuid"));
    r.push(uuid.to_owned());
    r.push(String::from_str("--accessToken"));
    r.push(access_token.to_owned());
    r.push(String::from_str("--userProperties"));
    r.push(String::from_str("{}"));
    proof {
        assert(r.deep_view() =~= seq![
            "-Xms1024M"@,
            "-Xmx2048M"@,
            "-Djava.library.path="@ + natives_dir@,
            "-Dfabric.development=false"@,
            "-cp"@,
            classpath@,
            main_class@,
            "--username"@,
            username@,
            "--version"@,
            game_version@,
            "--gameDir"@,
            game_dir@,
            "--assetsDir"@,
            assets_dir@,
            "--assetIndex"@,
            asset_index@,
            "--uuid"@,
            uuid@,
            "--accessToken"@,
            access_token@,
            "--userProperties"@,
            "{}"@,
        ]);
    }
    r
}

} // verus!
