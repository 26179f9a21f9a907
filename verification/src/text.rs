//! Verified text utilities: substring search, splitting, and character-level
//! string building.  The rest of the crate states its contracts over these
//! spec functions.

use vstd::prelude::*;

verus! {

/// `n` occurs in `h` starting at position `i`.
pub open spec fn matches_at(h: Seq<char>, n: Seq<char>, i: int) -> bool {
    0 <= i && i + n.len() <= h.len() && h.subrange(i, i + n.len()) == n
}

/// `n` occurs somewhere in `h`.
pub open spec fn spec_contains(h: Seq<char>, n: Seq<char>) -> bool {
    exists|i: int| matches_at(h, n, i)
}

/// `h` begins with `p`.
pub open spec fn spec_starts_with(h: Seq<char>, p: Seq<char>) -> bool {
    p.len() <= h.len() && h.subrange(0, p.len() as int) == p
}

/// `h` ends with `x`.
pub open spec fn spec_ends_with(h: Seq<char>, x: Seq<char>) -> bool {
    x.len() <= h.len() && h.subrange(h.len() - x.len(), h.len() as int) == x
}

/// Appends one character to a string.
///
/// Relies on `String::push`, which appends the given char to the end of the
/// string.
#[verifier::external_body]
pub(crate) fn string_push_char(s: &mut String, c: char)
    ensures
        final(s)@ == old(s)@.push(c),
{
    s.push(c);
}

/// Character-wise string equality.
pub fn str_eq(a: &str, b: &str) -> (r: bool)
    ensures
        r == (a@ == b@),
{
    let an = a.unicode_len();
    let bn = b.unicode_len();
    if an != bn {
        return false;
    }
    let mut i: usize = 0;
    while i < an
        invariant
            an == a@.len(),
            an == b@.len(),
            i <= an,
            forall|k: int| 0 <= k < i ==> a@[k] == b@[k],
        decreases an - i,
    {
        if a.get_char(i) != b.get_char(i) {
            return false;
        }
        i += 1;
    }
    proof {
        assert(a@ =~= b@);
    }
    true
}

/// Whether `n` occurs in `h` at exactly position `i`.
pub fn match_at(h: &str, n: &str, i: usize) -> (r: bool)
    ensures
        r == matches_at(h@, n@, i as int),
{
    let hn = h.unicode_len();
    let nn = n.unicode_len();
    if i > hn || nn > hn - i {
        return false;
    }
    let mut k: usize = 0;
    while k < nn
        invariant
            hn == h@.len(),
            nn == n@.len(),
            i + nn <= hn,
            k <= nn,
            forall|t: int| 0 <= t < k ==> h@[i + t] == n@[t],
        decreases nn - k,
    {
        if h.get_char(i + k) != n.get_char(k) {
            proof {
                assert(h@.subrange(i as int, i + nn as int)[k as int] == h@[i + k]);
            }
            return false;
        }
        k += 1;
    }
    proof {
        assert(h@.subrange(i as int, i + nn as int) =~= n@);
    }
    true
}

/// The first position at or after which `n` occurs in `h`, if any.
pub fn find_sub(h: &str, n: &str) -> (r: Option<usize>)
    ensures
        match r {
            Some(i) => matches_at(h@, n@, i as int) && forall|j: int|
                0 <= j < i ==> !matches_at(h@, n@, j),
            None => forall|j: int| !matches_at(h@, n@, j),
        },
{
    let hn = h.unicode_len();
    let nn = n.unicode_len();
    if nn > hn {
        return None;
    }
    if nn == 0 {
        proof {
            assert(h@.subrange(0, 0) =~= n@);
        }
        return Some(0);
    }
    let mut i: usize = 0;
    while i <= hn - nn
        invariant
            hn == h@.len(),
            nn == n@.len(),
            0 < nn <= hn,
            i <= hn - nn + 1,
            forall|j: int| 0 <= j < i ==> !matches_at(h@, n@, j),
        decreases hn - i,
    {
        if match_at(h, n, i) {
            return Some(i);
        }
        i += 1;
    }
    None
}

/// Whether `n` occurs anywhere in `h`.
pub fn str_contains(h: &str, n: &str) -> (r: bool)
    ensures
        r == spec_contains(h@, n@),
{
    match find_sub(h, n) {
        Some(i) => {
            proof {
                assert(matches_at(h@, n@, i as int));
            }
            true
        },
        None => false,
    }
}

/// Whether `h` begins with `p`.
pub fn str_starts_with(h: &str, p: &str) -> (r: bool)
    ensures
        r == spec_starts_with(h@, p@),
{
    match_at(h, p, 0)
}

/// Whether `h` ends with `x`.
pub fn str_ends_with(h: &str, x: &str) -> (r: bool)
    ensures
        r == spec_ends_with(h@, x@),
{
    let hn = h.unicode_len();
    let xn = x.unicode_len();
    if xn > hn {
        return false;
    }
    match_at(h, x, hn - xn)
}

/// The first position `i >= from` with `s[i] == c`, if any.
pub fn find_char_from(s: &str, c: char, from: usize) -> (r: Option<usize>)
    requires
        from <= s@.len(),
    ensures
        match r {
            Some(i) => from <= i < s@.len() && s@[i as int] == c && forall|j: int|
                from <= j < i ==> s@[j] != c,
            None => forall|j: int| from <= j < s@.len() ==> s@[j] != c,
        },
{
    let n = s.unicode_len();
    let mut i: usize = from;
    while i < n
        invariant
            n == s@.len(),
            from <= i <= n,
            forall|j: int| from <= j < i ==> s@[j] != c,
        decreases n - i,
    {
        if s.get_char(i) == c {
            return Some(i);
        }
        i += 1;
    }
    None
}

/// A match inside a suffix of `h` is a match in `h`, shifted.
pub proof fn lemma_matches_in_suffix(h: Seq<char>, lo: int, n: Seq<char>, k: int)
    requires
        0 <= lo <= h.len(),
        0 <= k,
    ensures
        matches_at(h.subrange(lo, h.len() as int), n, k) <==> matches_at(h, n, lo + k),
{
    let t = h.subrange(lo, h.len() as int);
    if k + n.len() <= t.len() {
        assert(t.subrange(k, k + n.len()) =~= h.subrange(lo + k, lo + k + n.len()));
    }
}

/// Splitting a string at every occurrence of a separator character.  A string
/// of `k` separators yields `k + 1` parts; the separators themselves are
/// dropped.
pub open spec fn spec_split_char(s: Seq<char>, sep: char) -> Seq<Seq<char>>
    decreases s.len(),
{
    if s.len() == 0 {
        seq![Seq::<char>::empty()]
    } else {
        let rest = spec_split_char(s.drop_first(), sep);
        if s[0] == sep {
            seq![Seq::<char>::empty()] + rest
        } else {
            seq![seq![s[0]] + rest[0]] + rest.drop_first()
        }
    }
}

pub proof fn lemma_split_char_len(s: Seq<char>, sep: char)
    ensures
        spec_split_char(s, sep).len() >= 1,
    decreases s.len(),
{
    if s.len() > 0 {
        lemma_split_char_len(s.drop_first(), sep);
    }
}

/// If the first separator of `s` stands at `i`, the split is the part before
/// it followed by the split of what comes after it.
pub proof fn lemma_split_char_peel(s: Seq<char>, sep: char, i: int)
    requires
        0 <= i < s.len(),
        s[i] == sep,
        forall|k: int| 0 <= k < i ==> s[k] != sep,
    ensures
        spec_split_char(s, sep) == seq![s.subrange(0, i)] + spec_split_char(
            s.subrange(i + 1, s.len() as int),
            sep,
        ),
    decreases i,
{
    lemma_split_char_len(s.drop_first(), sep);
    if i == 0 {
        assert(s.subrange(0, 0) =~= Seq::<char>::empty());
        assert(s.subrange(1, s.len() as int) =~= s.drop_first());
        assert(spec_split_char(s, sep) =~= seq![s.subrange(0, 0)] + spec_split_char(
            s.subrange(1, s.len() as int),
            sep,
        ));
    } else {
        let t = s.drop_first();
        assert(t[i - 1] == sep);
        assert(forall|k: int| 0 <= k < i - 1 ==> t[k] == s[k + 1] && t[k] != sep);
        lemma_split_char_peel(t, sep, i - 1);
        assert(t.subrange(0, i - 1) =~= s.subrange(1, i));
        assert(t.subrange(i, t.len() as int) =~= s.subrange(i + 1, s.len() as int));
        let rest = spec_split_char(t, sep);
        assert(rest == seq![s.subrange(1, i)] + spec_split_char(
            s.subrange(i + 1, s.len() as int),
            sep,
        ));
        assert(seq![s[0]] + rest[0] =~= s.subrange(0, i));
        assert(rest.drop_first() =~= spec_split_char(s.subrange(i + 1, s.len() as int), sep));
        assert(spec_split_char(s, sep) =~= seq![s.subrange(0, i)] + spec_split_char(
            s.subrange(i + 1, s.len() as int),
            sep,
        ));
    }
}

/// A string without the separator splits into itself alone.
pub proof fn lemma_split_char_none(s: Seq<char>, sep: char)
    requires
        forall|k: int| 0 <= k < s.len() ==> s[k] != sep,
    ensures
        spec_split_char(s, sep) == seq![s],
    decreases s.len(),
{
    if s.len() == 0 {
        assert(s =~= Seq::<char>::empty());
        assert(spec_split_char(s, sep) =~= seq![s]);
    } else {
        lemma_split_char_none(s.drop_first(), sep);
        let rest = spec_split_char(s.drop_first(), sep);
        assert(rest == seq![s.drop_first()]);
        assert(seq![s[0]] + rest[0] =~= s);
        assert(rest.drop_first() =~= Seq::<Seq<char>>::empty());
        assert(spec_split_char(s, sep) =~= seq![s]);
    }
}

/// Splits `s` at every occurrence of `sep`.
pub fn split_char(s: &str, sep: char) -> (r: Vec<String>)
    ensures
        r.deep_view() == spec_split_char(s@, sep),
{
    let n = s.unicode_len();
    let mut parts: Vec<String> = Vec::new();
    let mut start: usize = 0;
    proof {
        assert(parts.deep_view() =~= Seq::<Seq<char>>::empty());
        assert(s@.subrange(0, n as int) =~= s@);
    }
    loop
        invariant
            n == s@.len(),
            start <= n,
            spec_split_char(s@, sep) == parts.deep_view() + spec_split_char(
                s@.subrange(start as int, n as int),
                sep,
            ),
        decreases n - start,
    {
        match find_char_from(s, sep, start) {
            Some(i) => {
                let ghost old_parts = parts.deep_view();
                let part = s.substring_char(start, i).to_owned();
                parts.push(part);
                proof {
                    assert(parts.deep_view() =~= old_parts.push(part@));
                    let tail = s@.subrange(start as int, n as int);
                    let rel = i - start;
                    assert(tail[rel] == sep);
                    assert(forall|k: int| 0 <= k < rel ==> tail[k] == s@[start + k] && tail[k]
                        != sep);
                    lemma_split_char_peel(tail, sep, rel);
                    assert(tail.subrange(0, rel) =~= s@.subrange(start as int, i as int));
                    assert(tail.subrange(rel + 1, tail.len() as int) =~= s@.subrange(
                        i + 1,
                        n as int,
                    ));
                    assert(parts.deep_view() + spec_split_char(s@.subrange(i + 1, n as int), sep)
                        =~= old_parts + spec_split_char(tail, sep));
                }
                start = i + 1;
            },
            None => {
                let ghost old_parts = parts.deep_view();
                let part = s.substring_char(start, n).to_owned();
                parts.push(part);
                proof {
                    assert(parts.deep_view() =~= old_parts.push(part@));
                    let tail = s@.subrange(start as int, n as int);
                    lemma_split_char_none(tail, sep);
                    assert(parts.deep_view() =~= old_parts + seq![tail]);
                    assert(parts.deep_view() =~= spec_split_char(s@, sep));
                }
                return parts;
            },
        }
    }
}

/// A view-preserving copy of a string vector.
pub fn clone_strings(v: &Vec<String>) -> (r: Vec<String>)
    ensures
        r.deep_view() == v.deep_view(),
{
    let mut r: Vec<String> = Vec::new();
    let mut i: usize = 0;
    while i < v.len()
        invariant
            i <= v@.len(),
            r@.len() == i,
            forall|k: int| 0 <= k < i ==> r@[k]@ == v@[k]@,
        decreases v@.len() - i,
    {
        r.push(v[i].clone());
        i += 1;
    }
    proof {
        assert(r.deep_view() =~= v.deep_view());
    }
    r
}

/// `s` with every occurrence of `pat` replaced by `rep`, scanning left to
/// right without overlap.
pub open spec fn spec_replace_all(s: Seq<char>, pat: Seq<char>, rep: Seq<char>) -> Seq<char>
    decreases s.len(),
    when pat.len() > 0
{
    if s.len() < pat.len() {
        s
    } else if s.subrange(0, pat.len() as int) == pat {
        rep + spec_replace_all(s.skip(pat.len() as int), pat, rep)
    } else {
        seq![s[0]] + spec_replace_all(s.drop_first(), pat, rep)
    }
}

/// Replaces every occurrence of `pat` in `s` by `rep`.
pub fn replace_all(s: &str, pat: &str, rep: &str) -> (r: String)
    requires
        pat@.len() > 0,
    ensures
        r@ == spec_replace_all(s@, pat@, rep@),
{
    let n = s.unicode_len();
    let pn = pat.unicode_len();
    let mut r = String::new();
    let mut i: usize = 0;
    proof {
        assert(s@.skip(0) =~= s@);
        assert(r@ + spec_replace_all(s@, pat@, rep@) =~= spec_replace_all(s@, pat@, rep@));
    }
    while i < n
        invariant
            n == s@.len(),
            pn == pat@.len(),
            pn > 0,
            i <= n,
            spec_replace_all(s@, pat@, rep@) == r@ + spec_replace_all(
                s@.skip(i as int),
                pat@,
                rep@,
            ),
        decreases n - i,
    {
        let ghost old_r = r@;
        let ghost tail = s@.skip(i as int);
        if match_at(s, pat, i) {
            r.append(rep);
            proof {
                assert(tail.subrange(0, pn as int) =~= s@.subrange(i as int, i + pn as int));
                assert(tail.skip(pn as int) =~= s@.skip(i + pn));
                assert(r@ + spec_replace_all(s@.skip(i + pn), pat@, rep@) =~= old_r
                    + spec_replace_all(tail, pat@, rep@));
            }
            i += pn;
        } else {
            let c = s.get_char(i);
            string_push_char(&mut r, c);
            proof {
                if tail.len() >= pn {
                    assert(tail.subrange(0, pn as int) =~= s@.subrange(i as int, i + pn as int));
                    assert(tail.subrange(0, pn as int) != pat@) by {
                        if tail.subrange(0, pn as int) == pat@ {
                            assert(matches_at(s@, pat@, i as int));
                        }
                    }
                }
                assert(tail.drop_first() =~= s@.skip(i + 1));
                assert(r@ + spec_replace_all(s@.skip(i + 1), pat@, rep@) =~= old_r
                    + spec_replace_all(tail, pat@, rep@));
            }
            i += 1;
        }
    }
    proof {
        assert(s@.skip(n as int) =~= Seq::<char>::empty());
        assert(r@ + Seq::<char>::empty() =~= r@);
    }
    r
}

/// The decimal digits.
pub open spec fn spec_digit_char(d: int) -> char {
    seq!['0', '1', '2', '3', '4', '5', '6', '7', '8', '9'][d]
}

/// The decimal writing of a non-negative number, most significant digit
/// first.
pub open spec fn spec_dec(n: int) -> Seq<char>
    decreases n,
    when n >= 0
{
    if n < 10 {
        seq![spec_digit_char(n)]
    } else {
        spec_dec(n / 10).push(spec_digit_char(n % 10))
    }
}

fn digit_char(d: u64) -> (c: char)
    requires
        d < 10,
    ensures
        c == spec_digit_char(d as int),
{
    match d {
        0 => '0',
        1 => '1',
        2 => '2',
        3 => '3',
        4 => '4',
        5 => '5',
        6 => '6',
        7 => '7',
        8 => '8',
        _ => '9',
    }
}

/// Writes a number in decimal.
pub fn u64_to_string(n: u64) -> (r: String)
    ensures
        r@ == spec_dec(n as int),
    decreases n,
{
    if n < 10 {
        let mut s = String::new();
        string_push_char(&mut s, digit_char(n));
        proof {
            assert(s@ =~= spec_dec(n as int));
        }
        s
    } else {
        let mut s = u64_to_string(n / 10);
        string_push_char(&mut s, digit_char(n % 10));
        s
    }
}

/// The suffix of `p` after its last `/`, or all of `p` when it has none.
pub open spec fn spec_basename(p: Seq<char>) -> Seq<char>
    decreases p.len(),
{
    if p.len() == 0 {
        p
    } else if p.last() == '/' {
        Seq::<char>::empty()
    } else {
        spec_basename(p.drop_last()).push(p.last())
    }
}

pub proof fn lemma_basename_no_slash(p: Seq<char>)
    requires
        forall|j: int| 0 <= j < p.len() ==> p[j] != '/',
    ensures
        spec_basename(p) == p,
    decreases p.len(),
{
    if p.len() > 0 {
        lemma_basename_no_slash(p.drop_last());
        assert(p.drop_last().push(p.last()) =~= p);
    }
}

pub proof fn lemma_basename_after(p: Seq<char>, i: int)
    requires
        0 <= i < p.len(),
        p[i] == '/',
        forall|j: int| i < j < p.len() ==> p[j] != '/',
    ensures
        spec_basename(p) == p.subrange(i + 1, p.len() as int),
    decreases p.len(),
{
    if i == p.len() - 1 {
        assert(p.subrange(i + 1, p.len() as int) =~= Seq::<char>::empty());
    } else {
        assert(p.last() != '/');
        lemma_basename_after(p.drop_last(), i);
        assert(p.drop_last().subrange(i + 1, p.len() - 1).push(p.last()) =~= p.subrange(
            i + 1,
            p.len() as int,
        ));
    }
}

/// The file name at the end of a `/`-separated path.
pub fn basename(p: &str) -> (r: String)
    ensures
        r@ == spec_basename(p@),
{
    let n = p.unicode_len();
    let mut last_slash: Option<usize> = None;
    let mut i: usize = 0;
    while i < n
        invariant
            n == p@.len(),
            i <= n,
            match last_slash {
                Some(k) => k < i && p@[k as int] == '/' && forall|j: int|
                    k < j < i ==> p@[j] != '/',
                None => forall|j: int| 0 <= j < i ==> p@[j] != '/',
            },
        decreases n - i,
    {
        if p.get_char(i) == '/' {
            last_slash = Some(i);
        }
        i += 1;
    }
    match last_slash {
        Some(k) => {
            proof {
                lemma_basename_after(p@, k as int);
            }
            p.substring_char(k + 1, n).to_owned()
        },
        None => {
            proof {
                lemma_basename_no_slash(p@);
            }
            p.to_owned()
        },
    }
}

} // verus!
