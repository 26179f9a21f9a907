//! Content verification for the downloader, and download plans.
//!
//! The host shell fetches bytes; this module decides whether they may be
//! persisted.  A body is accepted exactly when its length equals the declared
//! size and its SHA-1 digest, written as lowercase hex, equals the declared
//! digest up to ASCII case.  Download plans pair a URL with a target path and
//! the expected content, so that a caller can skip files that are already
//! present and verified.

use sha1::Digest;
use vstd::prelude::*;

use crate::error::LauncherError;

verus! {

/// The SHA-1 digest of a byte sequence, as computed by the `sha1` crate.
pub uninterp spec fn spec_sha1(data: Seq<u8>) -> Seq<u8>;

/// Relies on `sha1::Sha1` through the `Digest` interface: the digest is a
/// pure function of the input bytes, twenty bytes long.
#[verifier::external_body]
fn sha1_digest(data: &Vec<u8>) -> (r: Vec<u8>)
    ensures
        r@ == spec_sha1(data@),
        r@.len() == 20,
{
    let mut hasher = sha1::Sha1::new();
    hasher.update(data.as_slice());
    hasher.finalize().to_vec()
}

/// The sixteen lowercase hex digits.
pub open spec fn spec_hex_digit(n: int) -> char {
    seq!['0', '1', '2', '3', '4', '5', '6', '7', '8', '9', 'a', 'b', 'c', 'd', 'e', 'f'][n]
}

/// Lowercase hex encoding: two digits for each byte, high nibble first.
pub open spec fn spec_hex_lower(data: Seq<u8>) -> Seq<char>
    decreases data.len(),
{
    if data.len() == 0 {
        Seq::<char>::empty()
    } else {
        seq![
            spec_hex_digit(data.first() as int / 16),
            spec_hex_digit(data.first() as int % 16),
        ] + spec_hex_lower(data.drop_first())
    }
}

/// Relies on `hex::encode`: the result is the lowercase hex encoding of the
/// input, two digits per byte, high nibble first.
#[verifier::external_body]
fn hex_encode_lower(data: &Vec<u8>) -> (r: String)
    ensures
        r@ == spec_hex_lower(data@),
{
    hex::encode(data.as_slice())
}

/// Two characters are equal up to ASCII case.
pub open spec fn spec_char_eq_nocase(a: char, b: char) -> bool {
    ||| a == b
    ||| ('A' <= a <= 'Z' && b as int == a as int + 32)
    ||| ('A' <= b <= 'Z' && a as int == b as int + 32)
}

/// Two character sequences are equal up to ASCII case.
pub open spec fn spec_eq_nocase(a: Seq<char>, b: Seq<char>) -> bool {
    a.len() == b.len() && forall|i: int| 0 <= i < a.len() ==> spec_char_eq_nocase(a[i], b[i])
}

/// ASCII case-insensitive string equality.
pub fn str_eq_nocase(a: &str, b: &str) -> (r: bool)
    ensures
        r == spec_eq_nocase(a@, b@),
{
    let an = a.unicode_len();
    let bn = b.unicode_len();
    if an != bn {
        return false;
    }
    let mut i: usize = 0;
    while i < an
        invariant
            an == a@.len(),
            an == b@.len(),
            i <= an,
            forall|k: int| 0 <= k < i ==> spec_char_eq_nocase(a@[k], b@[k]),
        decreases an - i,
    {
        let ca = a.get_char(i);
        let cb = b.get_char(i);
        let same = if ca == cb {
            true
        } else if 'A' <= ca && ca <= 'Z' && cb as u32 == ca as u32 + 32 {
            true
        } else if 'A' <= cb && cb <= 'Z' && ca as u32 == cb as u32 + 32 {
            true
        } else {
            false
        };
        if !same {
            return false;
        }
        i += 1;
    }
    true
}

/// Whether a digest, written as lowercase hex, equals an expected hex string
/// up to ASCII case.
pub fn digest_matches(digest: &Vec<u8>, expected_hex: &str) -> (r: bool)
    ensures
        r == spec_eq_nocase(spec_hex_lower(digest@), expected_hex@),
{
    let actual = hex_encode_lower(digest);
    str_eq_nocase(actual.as_str(), expected_hex)
}

/// Decides whether a downloaded body may be persisted at `path`.
///
/// Accepts exactly when the body's length equals `expected_size` and its
/// SHA-1 digest, in lowercase hex, equals `expected_sha1` up to ASCII case;
/// a wrong length is a `SizeMismatch`, a wrong digest a `HashMismatch`.  The
/// host shell must not write the body on an error.
pub fn verify_content(body: &Vec<u8>, path: &str, expected_sha1: &str, expected_size: u64) -> (r:
    Result<(), LauncherError>)
    ensures
        match r {
            Ok(()) => body@.len() == expected_size && spec_eq_nocase(
                spec_hex_lower(spec_sha1(body@)),
                expected_sha1@,
            ),
            Err(LauncherError::SizeMismatch { path: p, expected, actual }) => p@ == path@
                && expected == expected_size && actual == body@.len() && body@.len()
                != expected_size,
            Err(LauncherError::HashMismatch { path: p, expected, actual }) => p@ == path@
                && expected@ == expected_sha1@ && actual@ == spec_hex_lower(spec_sha1(body@))
                && body@.len() == expected_size && !spec_eq_nocase(
                spec_hex_lower(spec_sha1(body@)),
                expected_sha1@,
            ),
            Err(_) => false,
        },
{
    if body.len() as u64 != expected_size {
        return Err(
            LauncherError::SizeMismatch {
                path: path.to_owned(),
                expected: expected_size,
                actual: body.len() as u64,
            },
        );
    }
    let digest = sha1_digest(body);
    let actual = hex_encode_lower(&digest);
    if !str_eq_nocase(actual.as_str(), expected_sha1) {
        return Err(
            LauncherError::HashMismatch {
                path: path.to_owned(),
                expected: expected_sha1.to_owned(),
                actual,
            },
        );
    }
    Ok(())
}

/// One planned download: fetch `url`, verify against `sha1`/`size` when they
/// are declared, and persist at `path`.  Coordinate-only libraries carry no
/// digest and are persisted unverified.
pub struct DownloadItem {
    pub url: String,
    pub path: String,
    pub sha1: Option<String>,
    pub size: Option<u64>,
}

/// The mathematical image of a `DownloadItem`.
pub struct DownloadItemModel {
    pub url: Seq<char>,
    pub path: Seq<char>,
    pub sha1: Option<Seq<char>>,
    pub size: Option<u64>,
}

impl View for DownloadItem {
    type V = DownloadItemModel;

    open spec fn view(&self) -> DownloadItemModel {
        DownloadItemModel {
            url: self.url@,
            path: self.path@,
            sha1: match self.sha1 {
                Option::None => Option::None,
                Option::Some(s) => Option::Some(s@),
            },
            size: self.size,
        }
    }
}

/// The images of a sequence of download items.
pub open spec fn items_view(s: Seq<DownloadItem>) -> Seq<DownloadItemModel> {
    s.map_values(|d: DownloadItem| d@)
}

impl DownloadItem {
    /// A field-for-field copy.
    pub fn duplicate(&self) -> (r: Self)
        ensures
            r@ == self@,
    {
        DownloadItem {
            url: self.url.clone(),
            path: self.path.clone(),
            sha1: match &self.sha1 {
                Option::None => Option::None,
                Option::Some(s) => Option::Some(s.clone()),
            },
            size: self.size,
        }
    }
}

/// The items of a plan that still need fetching: those whose target file is
/// not already present.
pub open spec fn spec_pending(items: Seq<DownloadItemModel>, present: Seq<bool>) -> Seq<
    DownloadItemModel,
>
    decreases items.len(),
{
    if items.len() == 0 {
        Seq::<DownloadItemModel>::empty()
    } else if present[0] {
        spec_pending(items.drop_first(), present.drop_first())
    } else {
        seq![items[0]] + spec_pending(items.drop_first(), present.drop_first())
    }
}

/// Filters a download plan down to the files that are absent.  `present[i]`
/// says whether the target of `plan[i]` already exists on disk.
pub fn pending_downloads(plan: &Vec<DownloadItem>, present: &Vec<bool>) -> (r: Vec<DownloadItem>)
    requires
        plan@.len() == present@.len(),
    ensures
        items_view(r@) == spec_pending(items_view(plan@), present@),
{
    let mut out: Vec<DownloadItem> = Vec::new();
    let mut i: usize = 0;
    proof {
        assert(items_view(out@) =~= Seq::<DownloadItemModel>::empty());
        assert(plan@.skip(0) =~= plan@);
        assert(present@.skip(0) =~= present@);
        assert(items_view(out@) + spec_pending(items_view(plan@), present@) =~= spec_pending(
            items_view(plan@),
            present@,
        ));
    }
    while i < plan.len()
        invariant
            plan@.len() == present@.len(),
            i <= plan@.len(),
            spec_pending(items_view(plan@), present@) == items_view(out@) + spec_pending(
                items_view(plan@.skip(i as int)),
                present@.skip(i as int),
            ),
        decreases plan@.len() - i,
    {
        let ghost old_out = items_view(out@);
        let ghost tail_items = items_view(plan@.skip(i as int));
        let ghost tail_present = present@.skip(i as int);
        if !present[i] {
            out.push(plan[i].duplicate());
        }
        proof {
            assert(tail_items[0] == plan@[i as int]@);
            assert(tail_items.drop_first() =~= items_view(plan@.skip(i + 1)));
            assert(tail_present.drop_first() =~= present@.skip(i + 1));
            if present@[i as int] {
                assert(items_view(out@) =~= old_out);
            } else {
                assert(items_view(out@) =~= old_out.push(plan@[i as int]@));
                assert(items_view(out@) =~= old_out + seq![tail_items[0]]);
            }
        }
        i += 1;
    }
    proof {
        assert(items_view(plan@.skip(plan@.len() as int)) =~= Seq::<DownloadItemModel>::empty());
        assert(present@.skip(present@.len() as int) =~= Seq::<bool>::empty());
        assert(items_view(out@) =~= spec_pending(items_view(plan@), present@));
    }
    out
}

/// Re-running an install on a complete profile downloads nothing: when every
/// target of the plan is already present, the pending set is empty.
pub proof fn lemma_install_idempotent(items: Seq<DownloadItemModel>, present: Seq<bool>)
    requires
        items.len() == present.len(),
        forall|i: int| 0 <= i < present.len() ==> present[i],
    ensures
        spec_pending(items, present) == Seq::<DownloadItemModel>::empty(),
    decreases items.len(),
{
    if items.len() > 0 {
        lemma_install_idempotent(items.drop_first(), present.drop_first());
    }
}

} // verus!
