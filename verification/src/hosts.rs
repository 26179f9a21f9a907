//! The hosts-file check: finds entries that redirect the game's or the
//! vendor's domains, which third-party blockers install on Windows.
//!
//! A line is flagged when it is not a comment and its second
//! whitespace-delimited token contains one of the watched domains.  The
//! host shell reads the file and reports the flagged lines.

use vstd::prelude::*;

use crate::text::{
    spec_contains, spec_split_char, split_char, str_contains, string_push_char,
};

verus! {

/// The whitespace that separates hosts-file tokens.
pub open spec fn spec_is_space(c: char) -> bool {
    c == ' ' || c == '\t' || c == '\r'
}

/// Splitting a line at every whitespace character.
pub open spec fn spec_split_ws(s: Seq<char>) -> Seq<Seq<char>>
    decreases s.len(),
{
    if s.len() == 0 {
        seq![Seq::<char>::empty()]
    } else {
        let rest = spec_split_ws(s.drop_first());
        if spec_is_space(s[0]) {
            seq![Seq::<char>::empty()] + rest
        } else {
            seq![seq![s[0]] + rest[0]] + rest.drop_first()
        }
    }
}

proof fn lemma_split_ws_len(s: Seq<char>)
    ensures
        spec_split_ws(s).len() >= 1,
    decreases s.len(),
{
    if s.len() > 0 {
        lemma_split_ws_len(s.drop_first());
    }
}

proof fn lemma_split_ws_peel(s: Seq<char>, i: int)
    requires
        0 <= i < s.len(),
        spec_is_space(s[i]),
        forall|k: int| 0 <= k < i ==> !spec_is_space(s[k]),
    ensures
        spec_split_ws(s) == seq![s.subrange(0, i)] + spec_split_ws(
            s.subrange(i + 1, s.len() as int),
        ),
    decreases i,
{
    lemma_split_ws_len(s.drop_first());
    if i == 0 {
        assert(s.subrange(0, 0) =~= Seq::<char>::empty());
        assert(s.subrange(1, s.len() as int) =~= s.drop_first());
        assert(spec_split_ws(s) =~= seq![s.subrange(0, 0)] + spec_split_ws(
            s.subrange(1, s.len() as int),
        ));
    } else {
        let t = s.drop_first();
        assert(spec_is_space(t[i - 1]));
        assert(forall|k: int| 0 <= k < i - 1 ==> t[k] == s[k + 1] && !spec_is_space(t[k]));
        lemma_split_ws_peel(t, i - 1);
        assert(t.subrange(0, i - 1) =~= s.subrange(1, i));
        assert(t.subrange(i, t.len() as int) =~= s.subrange(i + 1, s.len() as int));
        let rest = spec_split_ws(t);
        assert(seq![s[0]] + rest[0] =~= s.subrange(0, i));
        assert(rest.drop_first() =~= spec_split_ws(s.subrange(i + 1, s.len() as int)));
        assert(spec_split_ws(s) =~= seq![s.subrange(0, i)] + spec_split_ws(
            s.subrange(i + 1, s.len() as int),
        ));
    }
}

proof fn lemma_split_ws_none(s: Seq<char>)
    requires
        forall|k: int| 0 <= k < s.len() ==> !spec_is_space(s[k]),
    ensures
        spec_split_ws(s) == seq![s],
    decreases s.len(),
{
    if s.len() == 0 {
        assert(s =~= Seq::<char>::empty());
        assert(spec_split_ws(s) =~= seq![s]);
    } else {
        lemma_split_ws_none(s.drop_first());
        let rest = spec_split_ws(s.drop_first());
        assert(rest == seq![s.drop_first()]);
        assert(seq![s[0]] + rest[0] =~= s);
        assert(rest.drop_first() =~= Seq::<Seq<char>>::empty());
        assert(spec_split_ws(s) =~= seq![s]);
    }
}

/// The first whitespace character at or after `from`.
fn find_space_from(s: &str, from: usize) -> (r: Option<usize>)
    requires
        from <= s@.len(),
    ensures
        match r {
            Some(i) => from <= i < s@.len() && spec_is_space(s@[i as int]) && forall|j: int|
                from <= j < i ==> !spec_is_space(s@[j]),
            None => forall|j: int| from <= j < s@.len() ==> !spec_is_space(s@[j]),
        },
{
    let n = s.unicode_len();
    let mut i: usize = from;
    while i < n
        invariant
            n == s@.len(),
            from <= i <= n,
            forall|j: int| from <= j < i ==> !spec_is_space(s@[j]),
        decreases n - i,
    {
        let c = s.get_char(i);
        if c == ' ' || c == '\t' || c == '\r' {
            return Some(i);
        }
        i += 1;
    }
    None
}

/// Splits a line at every whitespace character.
pub fn split_ws(s: &str) -> (r: Vec<String>)
    ensures
        r.deep_view() == spec_split_ws(s@),
{
    let n = s.unicode_len();
    let mut parts: Vec<String> = Vec::new();
    let mut start: usize = 0;
    proof {
        assert(parts.deep_view() =~= Seq::<Seq<char>>::empty());
        assert(s@.subrange(0, n as int) =~= s@);
    }
    loop
        invariant
            n == s@.len(),
            start <= n,
            spec_split_ws(s@) == parts.deep_view() + spec_split_ws(
                s@.subrange(start as int, n as int),
            ),
        decreases n - start,
    {
        match find_space_from(s, start) {
            Some(i) => {
                let ghost old_parts = parts.deep_view();
                let part = s.substring_char(start, i).to_owned();
                parts.push(part);
                proof {
                    assert(parts.deep_view() =~= old_parts.push(part@));
                    let tail = s@.subrange(start as int, n as int);
                    let rel = i - start;
                    assert(spec_is_space(tail[rel]));
                    assert(forall|k: int| 0 <= k < rel ==> tail[k] == s@[start + k]
                        && !spec_is_space(tail[k]));
                    lemma_split_ws_peel(tail, rel);
                    assert(tail.subrange(0, rel) =~= s@.subrange(start as int, i as int));
                    assert(tail.subrange(rel + 1, tail.len() as int) =~= s@.subrange(
                        i + 1,
                        n as int,
                    ));
                    assert(parts.deep_view() + spec_split_ws(s@.subrange(i + 1, n as int))
                        =~= old_parts + spec_split_ws(tail));
                }
                start = i + 1;
            },
            None => {
                let ghost old_parts = parts.deep_view();
                let part = s.substring_char(start, n).to_owned();
                parts.push(part);
                proof {
                    assert(parts.deep_view() =~= old_parts.push(part@));
                    let tail = s@.subrange(start as int, n as int);
                    lemma_split_ws_none(tail);
                    assert(parts.deep_view() =~= old_parts + seq![tail]);
                    assert(parts.deep_view() =~= spec_split_ws(s@));
                }
                return parts;
            },
        }
    }
}

/// The non-empty whitespace-delimited tokens of a line.
pub open spec fn spec_tokens(s: Seq<char>) -> Seq<Seq<char>> {
    spec_split_ws(s).filter(|t: Seq<char>| t.len() > 0)
}

/// The non-empty whitespace-delimited tokens of a line.
pub fn tokens(line: &str) -> (r: Vec<String>)
    ensures
        r.deep_view() == spec_tokens(line@),
{
    let ghost pred = |t: Seq<char>| t.len() > 0;
    let parts = split_ws(line);
    let mut out: Vec<String> = Vec::new();
    let mut i: usize = 0;
    proof {
        assert(parts.deep_view().take(0) =~= Seq::<Seq<char>>::empty());
        reveal_with_fuel(Seq::<Seq<char>>::filter, 2);
        assert(out.deep_view() =~= parts.deep_view().take(0).filter(pred));
    }
    while i < parts.len()
        invariant
            i <= parts@.len(),
            parts.deep_view().len() == parts@.len(),
            out.deep_view() == parts.deep_view().take(i as int).filter(pred),
            pred == (|t: Seq<char>| t.len() > 0),
        decreases parts@.len() - i,
    {
        let ghost old_out = out.deep_view();
        let ghost pre = parts.deep_view().take(i as int);
        let ghost x = parts.deep_view()[i as int];
        if !parts[i].as_str().is_empty() {
            out.push(parts[i].clone());
        }
        proof {
            let now = parts.deep_view().take(i + 1);
            assert(now =~= pre + seq![x]);
            Seq::<Seq<char>>::filter_distributes_over_add(pre, seq![x], pred);
            reveal_with_fuel(Seq::<Seq<char>>::filter, 2);
            assert(seq![x].drop_last() =~= Seq::<Seq<char>>::empty());
            if x.len() > 0 {
                assert(seq![x].filter(pred) =~= seq![x]);
                assert(parts@[i as int]@.len() > 0);
                assert(out.deep_view() =~= old_out.push(x));
                assert(out.deep_view() =~= old_out + seq![x]);
            } else {
                assert(seq![x].filter(pred) =~= Seq::<Seq<char>>::empty());
                assert(out.deep_view() =~= old_out + Seq::<Seq<char>>::empty());
            }
            assert(out.deep_view() =~= now.filter(pred));
        }
        i += 1;
    }
    proof {
        assert(parts.deep_view().take(parts@.len() as int) =~= parts.deep_view());
    }
    out
}

/// A hosts-file line that blocks the game: not a comment, and its second
/// token contains one of the watched domains.
pub open spec fn spec_line_flagged(line: Seq<char>) -> bool {
    &&& !(line.len() > 0 && line[0] == '#')
    &&& spec_tokens(line).len() >= 2
    &&& (spec_contains(spec_tokens(line)[1], "mojang.com"@) || spec_contains(
        spec_tokens(line)[1],
        "minecraft.net"@,
    ) || spec_contains(spec_tokens(line)[1], "lightylauncher.fr"@))
}

/// Whether one hosts-file line blocks the game.
pub fn line_flagged(line: &str) -> (r: bool)
    ensures
        r == spec_line_flagged(line@),
{
    let n = line.unicode_len();
    if n > 0 && line.get_char(0) == '#' {
        return false;
    }
    let ts = tokens(line);
    if ts.len() < 2 {
        proof {
            assert(ts.deep_view().len() == ts@.len());
        }
        return false;
    }
    proof {
        assert(ts.deep_view().len() == ts@.len());
        assert(ts@[1]@ == ts.deep_view()[1]);
    }
    let t = &ts[1];
    str_contains(t.as_str(), "mojang.com") || str_contains(t.as_str(), "minecraft.net")
        || str_contains(t.as_str(), "lightylauncher.fr")
}

/// The lines of a hosts file that block the game, in file order.
pub fn flagged_hosts_lines(content: &str) -> (r: Vec<String>)
    ensures
        r.deep_view() == spec_split_char(content@, '\n').filter(
            |l: Seq<char>| spec_line_flagged(l),
        ),
{
    let ghost pred = |l: Seq<char>| spec_line_flagged(l);
    let lines = split_char(content, '\n');
    let mut out: Vec<String> = Vec::new();
    let mut i: usize = 0;
    proof {
        assert(lines.deep_view().take(0) =~= Seq::<Seq<char>>::empty());
        reveal_with_fuel(Seq::<Seq<char>>::filter, 2);
        assert(out.deep_view() =~= lines.deep_view().take(0).filter(pred));
    }
    while i < lines.len()
        invariant
            i <= lines@.len(),
            lines.deep_view().len() == lines@.len(),
            lines.deep_view() == spec_split_char(content@, '\n'),
            out.deep_view() == lines.deep_view().take(i as int).filter(pred),
            pred == (|l: Seq<char>| spec_line_flagged(l)),
        decreases lines@.len() - i,
    {
        let ghost old_out = out.deep_view();
        let ghost pre = lines.deep_view().take(i as int);
        let ghost x = lines.deep_view()[i as int];
        proof {
            assert(lines@[i as int]@ == x);
        }
        if line_flagged(lines[i].as_str()) {
            out.push(lines[i].clone());
        }
        proof {
            let now = lines.deep_view().take(i + 1);
            assert(now =~= pre + seq![x]);
            Seq::<Seq<char>>::filter_distributes_over_add(pre, seq![x], pred);
            reveal_with_fuel(Seq::<Seq<char>>::filter, 2);
            assert(seq![x].drop_last() =~= Seq::<Seq<char>>::empty());
            if spec_line_flagged(x) {
                assert(seq![x].filter(pred) =~= seq![x]);
                assert(out.deep_view() =~= old_out + seq![x]);
            } else {
                assert(seq![x].filter(pred) =~= Seq::<Seq<char>>::empty());
                assert(out.deep_view() =~= old_out + Seq::<Seq<char>>::empty());
            }
            assert(out.deep_view() =~= now.filter(pred));
        }
        i += 1;
    }
    proof {
        assert(lines.deep_view().take(lines@.len() as int) =~= lines.deep_view());
    }
    out
}

/// The Windows hosts file below a system drive.
pub fn hosts_path(system_drive: &str) -> (r: String)
    ensures
        r@ == system_drive@ + "\\Windows\\System32\\drivers\\etc\\hosts"@,
{
    let mut p = system_drive.to_owned();
    p.append("\\Windows\\System32\\drivers\\etc\\hosts");
    p
}

} // verus!
