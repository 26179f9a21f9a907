//! The OptiFine loader: the two-hop scrape of the downloads page.
//!
//! The first hop picks the first Mirror anchor for the profile's game
//! version; the second parses the `downloadx?f=<jar>&x=<token>` link out of
//! the mirror page and rebuilds the direct download URL.  The HTML parsing
//! itself is the scraper crate's work; every choice made on the anchors is
//! verified.

use vstd::prelude::*;

use crate::text::{
    find_sub, lemma_matches_in_suffix, matches_at, spec_contains, spec_starts_with, str_contains,
    str_starts_with,
};

verus! {

/// The OptiFine downloads page.
pub fn optifine_downloads_url() -> (r: &'static str)
    ensures
        r@ == "https://optifine.net/downloads"@,
{
    "https://optifine.net/downloads"
}

/// The anchors of an HTML document, as `(href, text)` pairs in document
/// order.
pub uninterp spec fn spec_anchors(html: Seq<char>) -> Seq<(Seq<char>, Seq<char>)>;

/// Relies on `scraper::Html::parse_document` with the selector `a[href]`:
/// the anchors of a document are a pure function of its text; each yields
/// its `href` attribute and its concatenated text.
#[verifier::external_body]
fn collect_anchors(html: &str) -> (r: Vec<(String, String)>)
    ensures
        r@.len() == spec_anchors(html@).len(),
        forall|i: int|
            0 <= i < r@.len() ==> (#[trigger] r@[i]).0@ == spec_anchors(html@)[i].0 && r@[i].1@
                == spec_anchors(html@)[i].1,
{
    let document = scraper::Html::parse_document(html);
    let selector = scraper::Selector::parse("a[href]").unwrap();
    let mut out: Vec<(String, String)> = Vec::new();
    for element in document.select(&selector) {
        if let Some(href) = element.value().attr("href") {
            let text = element.text().collect::<Vec<_>>().join("");
            out.push((href.to_string(), text));
        }
    }
    out
}

/// A Mirror anchor for a game version: an `adloadx` OptiFine link whose
/// text offers a mirror and whose URL names the version.
pub open spec fn spec_is_mirror_anchor(
    href: Seq<char>,
    label: Seq<char>,
    game_version: Seq<char>,
) -> bool {
    &&& spec_contains(href, "adloadx?f=OptiFine_"@)
    &&& spec_contains(label, "Mirror"@)
    &&& spec_contains(href, game_version)
}

/// The first Mirror anchor for the game version, if any.
pub fn pick_mirror_link(anchors: &Vec<(String, String)>, game_version: &str) -> (r: Option<String>)
    ensures
        match r {
            Some(h) => exists|i: int|
                {
                    &&& 0 <= i < anchors@.len()
                    &&& spec_is_mirror_anchor(
                        (#[trigger] anchors@[i]).0@,
                        anchors@[i].1@,
                        game_version@,
                    )
                    &&& h@ == anchors@[i].0@
                    &&& (forall|j: int|
                        0 <= j < i ==> !spec_is_mirror_anchor(
                            (#[trigger] anchors@[j]).0@,
                            anchors@[j].1@,
                            game_version@,
                        ))
                },
            None => forall|i: int|
                0 <= i < anchors@.len() ==> !spec_is_mirror_anchor(
                    (#[trigger] anchors@[i]).0@,
                    anchors@[i].1@,
                    game_version@,
                ),
        },
{
    let mut i: usize = 0;
    while i < anchors.len()
        invariant
            i <= anchors@.len(),
            forall|j: int|
                0 <= j < i ==> !spec_is_mirror_anchor(
                    (#[trigger] anchors@[j]).0@,
                    anchors@[j].1@,
                    game_version@,
                ),
        decreases anchors@.len() - i,
    {
        let href = &anchors[i].0;
        let label = &anchors[i].1;
        if str_contains(href.as_str(), "adloadx?f=OptiFine_") && str_contains(
            label.as_str(),
            "Mirror",
        ) && str_contains(href.as_str(), game_version) {
            return Some(href.clone());
        }
        i += 1;
    }
    None
}

/// The href of the first Mirror anchor of the downloads page for a game
/// version, if any.
pub fn find_mirror_link(page_html: &str, game_version: &str) -> (r: Option<String>)
    ensures
        match r {
            Some(h) => exists|i: int|
                {
                    &&& 0 <= i < spec_anchors(page_html@).len()
                    &&& spec_is_mirror_anchor(
                        (#[trigger] spec_anchors(page_html@)[i]).0,
                        spec_anchors(page_html@)[i].1,
                        game_version@,
                    )
                    &&& h@ == spec_anchors(page_html@)[i].0
                    &&& (forall|j: int|
                        0 <= j < i ==> !spec_is_mirror_anchor(
                            (#[trigger] spec_anchors(page_html@)[j]).0,
                            spec_anchors(page_html@)[j].1,
                            game_version@,
                        ))
                },
            None => forall|i: int|
                0 <= i < spec_anchors(page_html@).len() ==> !spec_is_mirror_anchor(
                    (#[trigger] spec_anchors(page_html@)[i]).0,
                    spec_anchors(page_html@)[i].1,
                    game_version@,
                ),
        },
{
    let anchors = collect_anchors(page_html);
    let r = pick_mirror_link(&anchors, game_version);
    proof {
        let sa = spec_anchors(page_html@);
        assert(forall|i: int|
            0 <= i < anchors@.len() ==> anchors@[i].0@ == (#[trigger] sa[i]).0 && anchors@[i].1@
                == sa[i].1);
    }
    r
}

/// The href of the first anchor of a mirror page whose link names the
/// direct download endpoint, if any.
pub fn find_downloadx_href(page_html: &str) -> (r: Option<String>)
    ensures
        match r {
            Some(h) => exists|i: int|
                {
                    &&& 0 <= i < spec_anchors(page_html@).len()
                    &&& spec_contains(
                        (#[trigger] spec_anchors(page_html@)[i]).0,
                        "downloadx?f="@,
                    )
                    &&& h@ == spec_anchors(page_html@)[i].0
                    &&& (forall|j: int|
                        0 <= j < i ==> !spec_contains(
                            (#[trigger] spec_anchors(page_html@)[j]).0,
                            "downloadx?f="@,
                        ))
                },
            None => forall|i: int|
                0 <= i < spec_anchors(page_html@).len() ==> !spec_contains(
                    (#[trigger] spec_anchors(page_html@)[i]).0,
                    "downloadx?f="@,
                ),
        },
{
    let anchors = collect_anchors(page_html);
    proof {
        let sa = spec_anchors(page_html@);
        assert(forall|i: int|
            0 <= i < anchors@.len() ==> anchors@[i].0@ == (#[trigger] sa[i]).0 && anchors@[i].1@
                == sa[i].1);
    }
    let mut i: usize = 0;
    while i < anchors.len()
        invariant
            i <= anchors@.len(),
            anchors@.len() == spec_anchors(page_html@).len(),
            forall|k: int|
                0 <= k < anchors@.len() ==> anchors@[k].0@ == (#[trigger] spec_anchors(
                    page_html@,
                )[k]).0,
            forall|j: int|
                0 <= j < i ==> !spec_contains(
                    (#[trigger] spec_anchors(page_html@)[j]).0,
                    "downloadx?f="@,
                ),
        decreases anchors@.len() - i,
    {
        if str_contains(anchors[i].0.as_str(), "downloadx?f=") {
            proof {
                let sa = spec_anchors(page_html@);
                assert(spec_contains(sa[i as int].0, "downloadx?f="@));
            }
            return Some(anchors[i].0.clone());
        }
        i += 1;
    }
    None
}

/// A relative mirror link is resolved against the OptiFine site.
pub fn absolutize_optifine_link(href: &str) -> (r: String)
    ensures
        r@ == (if spec_starts_with(href@, "http"@) {
            href@
        } else {
            "https://optifine.net/"@ + href@
        }),
{
    if str_starts_with(href, "http") {
        href.to_owned()
    } else {
        let mut u = String::from_str("https://optifine.net/");
        u.append(href);
        u
    }
}

/// `pat` occurs nowhere in `h`.
pub open spec fn spec_no_match(h: Seq<char>, n: Seq<char>) -> bool {
    forall|j: int| !matches_at(h, n, j)
}

/// `v` is the text from `lo` up to the first occurrence of `stop` at or
/// after `lo`, or up to the end when `stop` no longer occurs.
pub open spec fn spec_segment_tail(s: Seq<char>, stop: Seq<char>, v: Seq<char>, lo: int) -> bool {
    ||| exists|k: int|
        {
            &&& lo <= k
            &&& #[trigger] matches_at(s, stop, k)
            &&& (forall|j: int| lo <= j < k ==> !matches_at(s, stop, j))
            &&& v == s.subrange(lo, k)
        }
    ||| ((forall|j: int| lo <= j ==> !matches_at(s, stop, j)) && v == s.subrange(
        lo,
        s.len() as int,
    ))
}

/// `v` is the text between the first occurrence of `pat` in `s` and the
/// next occurrence of `stop` (or the end).
pub open spec fn spec_segment_result(s: Seq<char>, pat: Seq<char>, stop: Seq<char>, v: Seq<char>) -> bool {
    exists|i: int| #[trigger] spec_segment_found(s, pat, stop, v, i)
}

/// `v` is the text between the first occurrence of `pat` — standing at `i`
/// — and the next occurrence of `stop` (or the end).
pub open spec fn spec_segment_found(
    s: Seq<char>,
    pat: Seq<char>,
    stop: Seq<char>,
    v: Seq<char>,
    i: int,
) -> bool {
    &&& matches_at(s, pat, i)
    &&& (forall|j: int| 0 <= j < i ==> !matches_at(s, pat, j))
    &&& spec_segment_tail(s, stop, v, i + pat.len())
}

/// The text between the first occurrence of `pat` — whose position is
/// returned with it — and the next occurrence of `stop` after it (or the
/// end of `s`); `None` when `pat` does not occur.
fn segment_between_at(s: &str, pat: &str, stop: &str) -> (r: Option<(String, usize)>)
    requires
        pat@.len() > 0,
    ensures
        r matches Some(p) ==> spec_segment_found(s@, pat@, stop@, p.0@, p.1 as int),
        r is None ==> spec_no_match(s@, pat@),
{
    let n = s.unicode_len();
    let pn = pat.unicode_len();
    match find_sub(s, pat) {
        Some(i) => {
            let lo = i + pn;
            let rest = s.substring_char(lo, n);
            proof {
                assert(rest@ =~= s@.subrange(lo as int, s@.len() as int));
            }
            match find_sub(rest, stop) {
                Some(k) => {
                    let v = rest.substring_char(0, k).to_owned();
                    proof {
                        lemma_matches_in_suffix(s@, lo as int, stop@, k as int);
                        assert(matches_at(s@, stop@, lo + k));
                        assert forall|j: int| lo <= j < lo + k implies !matches_at(
                            s@,
                            stop@,
                            j,
                        ) by {
                            lemma_matches_in_suffix(s@, lo as int, stop@, j - lo);
                        }
                        assert(v@ =~= s@.subrange(lo as int, lo + k));
                        assert(spec_segment_tail(s@, stop@, v@, lo as int));
                        assert(spec_segment_found(s@, pat@, stop@, v@, i as int));
                    }
                    Some((v, i))
                },
                None => {
                    let v = rest.to_owned();
                    proof {
                        assert forall|j: int| lo <= j implies !matches_at(s@, stop@, j) by {
                            if j + stop@.len() <= s@.len() {
                                lemma_matches_in_suffix(s@, lo as int, stop@, j - lo);
                            }
                        }
                        assert(v@ =~= s@.subrange(lo as int, s@.len() as int));
                        assert(spec_segment_tail(s@, stop@, v@, lo as int));
                        assert(spec_segment_found(s@, pat@, stop@, v@, i as int));
                    }
                    Some((v, i))
                },
            }
        },
        None => None,
    }
}

/// The text between the first occurrence of `pat` (exclusive) and the next
/// occurrence of `stop` after it (or the end of `s`); `None` when `pat`
/// does not occur.
pub fn segment_between(s: &str, pat: &str, stop: &str) -> (r: Option<String>)
    requires
        pat@.len() > 0,
    ensures
        r matches Some(v) ==> spec_segment_result(s@, pat@, stop@, v@),
        r is None ==> spec_no_match(s@, pat@),
{
    match segment_between_at(s, pat, stop) {
        Some(p) => {
            proof {
                assert(spec_segment_result(s@, pat@, stop@, p.0@)) by {
                    assert(spec_segment_found(s@, pat@, stop@, p.0@, p.1 as int));
                }
            }
            Some(p.0)
        },
        None => None,
    }
}

/// The jar name of a `downloadx?f=<jar>&...` link: the text between the
/// first `f=` and the next `&` (or the end).
pub fn parse_jar_name(href: &str) -> (r: Option<String>)
    ensures
        match r {
            Some(v) => spec_segment_result(href@, "f="@, "&"@, v@),
            None => spec_no_match(href@, "f="@),
        },
{
    proof {
        reveal_strlit("f=");
    }
    segment_between(href, "f=", "&")
}

/// The token of a `...&x=<token>` link: the text after the first `&x=`, up
/// to a second `&x=` (or the end).
pub fn parse_x_token(href: &str) -> (r: Option<String>)
    ensures
        match r {
            Some(v) => spec_segment_result(href@, "&x="@, "&x="@, v@),
            None => spec_no_match(href@, "&x="@),
        },
{
    proof {
        reveal_strlit("&x=");
    }
    segment_between(href, "&x=", "&x=")
}

/// The direct download URL rebuilt from a jar name and token.
pub fn optifine_download_url(jar: &str, x: &str) -> (r: String)
    ensures
        r@ == "https://optifine.net/downloadx?f="@ + jar@ + "&x="@ + x@,
{
    let mut u = String::from_str("https://optifine.net/downloadx?f=");
    u.append(jar);
    u.append("&x=");
    u.append(x);
    proof {
        assert(u@ =~= "https://optifine.net/downloadx?f="@ + jar@ + "&x="@ + x@);
    }
    u
}

} // verus!
