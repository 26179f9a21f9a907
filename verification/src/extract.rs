//! The archive extractor's decisions: which entries of an archive are
//! materialised, for the ZIP archives native JARs and Windows runtimes come
//! in and the gzipped tar archives POSIX runtimes come in.
//!
//! An entry is kept when its path is safe — relative, without `..`
//! components, backslashes or drive colons — and no exclude prefix matches
//! it, by prefix or by containment.  Reading the archives is the ZIP and
//! tar crates' work; extraction succeeds exactly on readable archives, and
//! everything decided about an entry is verified here.

use vstd::prelude::*;

use crate::error::LauncherError;
use crate::jre::ArchiveKind;
use crate::text::{
    find_char_from, spec_contains, spec_split_char, spec_starts_with, split_char, str_contains,
    str_eq, str_starts_with,
};

verus! {

/// One entry of an archive: its path inside the archive, whether it is a
/// directory, and its contents.
pub struct ArchiveEntry {
    pub name: String,
    pub is_dir: bool,
    pub data: Vec<u8>,
}

#[verifier::external_type_specification]
#[verifier::external_body]
pub struct ExZipError(zip::result::ZipError);

#[verifier::external_type_specification]
#[verifier::external_body]
pub struct ExIoError(std::io::Error);

/// The entries of a ZIP archive, as `(path, is_directory, contents)`
/// triples in archive order.
pub uninterp spec fn spec_zip_entries(data: Seq<u8>) -> Seq<(Seq<char>, bool, Seq<u8>)>;

/// The bytes open as a ZIP archive: the central directory parses.
pub uninterp spec fn spec_zip_readable(data: Seq<u8>) -> bool;

/// Entry `i` of the ZIP archive opens and its contents decode.
pub uninterp spec fn spec_zip_entry_readable(data: Seq<u8>, i: int) -> bool;

/// Relies on `zip::ZipArchive::{new, len}` over an in-memory reader: both
/// the entry count and whether the central directory parses are pure
/// functions of the archive bytes.
#[verifier::external_body]
fn zip_entry_count(data: &Vec<u8>) -> (r: Result<usize, zip::result::ZipError>)
    ensures
        r is Ok <==> spec_zip_readable(data@),
        r matches Ok(n) ==> n == spec_zip_entries(data@).len(),
{
    let cursor = std::io::Cursor::new(data.as_slice());
    let archive = zip::ZipArchive::new(cursor)?;
    Ok(archive.len())
}

/// Relies on `zip::ZipArchive::by_index` and the entry's `name`, `is_dir`
/// and contents: entry `i` of an archive, and whether it decodes, are pure
/// functions of the archive bytes and the index.
#[verifier::external_body]
fn zip_entry_read(data: &Vec<u8>, i: usize) -> (r: Result<ArchiveEntry, zip::result::ZipError>)
    ensures
        r is Ok <==> spec_zip_entry_readable(data@, i as int),
        r matches Ok(e) ==> i < spec_zip_entries(data@).len() && spec_zip_entries(data@)[i as int]
            == (e.name@, e.is_dir, e.data@),
{
    let cursor = std::io::Cursor::new(data.as_slice());
    let mut archive = zip::ZipArchive::new(cursor)?;
    let mut f = archive.by_index(i)?;
    let name = f.name().to_string();
    let is_dir = f.is_dir();
    let mut buf: Vec<u8> = Vec::new();
    std::io::copy(&mut f, &mut buf)?;
    Ok(ArchiveEntry { name, is_dir, data: buf })
}

/// The bytes are a fully readable ZIP archive: the central directory
/// parses and every entry's contents decode.
pub open spec fn spec_zip_fully_readable(data: Seq<u8>) -> bool {
    &&& spec_zip_readable(data)
    &&& forall|i: int|
        0 <= i < spec_zip_entries(data).len() ==> spec_zip_entry_readable(data, i)
}

/// The entries of a gzipped tar archive, as `(path, is_directory,
/// contents)` triples in archive order.
pub uninterp spec fn spec_targz_entries(data: Seq<u8>) -> Seq<(Seq<char>, bool, Seq<u8>)>;

/// The bytes list as a gzipped tar archive: the stream decodes through the
/// whole entry list.
pub uninterp spec fn spec_targz_readable(data: Seq<u8>) -> bool;

/// The stream decodes up to entry `i` and that entry's contents read.
pub uninterp spec fn spec_targz_entry_readable(data: Seq<u8>, i: int) -> bool;

/// Relies on `tar::Archive::entries` over a `flate2` gzip decoder: the
/// entry count, and whether the stream lists, are pure functions of the
/// archive bytes.
#[verifier::external_body]
fn targz_entry_count(data: &Vec<u8>) -> (r: Result<usize, std::io::Error>)
    ensures
        r is Ok <==> spec_targz_readable(data@),
        r matches Ok(n) ==> n == spec_targz_entries(data@).len(),
{
    let cursor = std::io::Cursor::new(data.as_slice());
    let mut archive = tar::Archive::new(flate2::read::GzDecoder::new(cursor));
    let mut n: usize = 0;
    for entry in archive.entries()? {
        let _ = entry?;
        n += 1;
    }
    Ok(n)
}

/// Relies on `tar::Archive::entries` and the entry's path, type and
/// contents: entry `i`, and whether the stream decodes that far, are pure
/// functions of the archive bytes and the index.
#[verifier::external_body]
fn targz_entry_read(data: &Vec<u8>, i: usize) -> (r: Result<ArchiveEntry, std::io::Error>)
    ensures
        r is Ok <==> spec_targz_entry_readable(data@, i as int),
        r matches Ok(e) ==> i < spec_targz_entries(data@).len() && spec_targz_entries(
            data@,
        )[i as int] == (e.name@, e.is_dir, e.data@),
{
    let cursor = std::io::Cursor::new(data.as_slice());
    let mut archive = tar::Archive::new(flate2::read::GzDecoder::new(cursor));
    let mut entries = archive.entries()?;
    let missing = std::io::Error::new(std::io::ErrorKind::NotFound, "no such archive entry");
    let mut entry = entries.nth(i).ok_or(missing)??;
    let name = String::from_utf8_lossy(&entry.path_bytes()).into_owned();
    let is_dir = entry.header().entry_type().is_dir();
    let mut buf: Vec<u8> = Vec::new();
    std::io::copy(&mut entry, &mut buf)?;
    Ok(ArchiveEntry { name, is_dir, data: buf })
}

/// The bytes are a fully readable gzipped tar archive.
pub open spec fn spec_targz_fully_readable(data: Seq<u8>) -> bool {
    &&& spec_targz_readable(data)
    &&& forall|i: int|
        0 <= i < spec_targz_entries(data).len() ==> spec_targz_entry_readable(data, i)
}

/// An entry path that stays below the destination: non-empty, relative,
/// without backslashes, drive colons or `..` components.
pub open spec fn spec_safe_entry_path(name: Seq<char>) -> bool {
    &&& name.len() > 0
    &&& name[0] != '/'
    &&& !name.contains('\\')
    &&& !name.contains(':')
    &&& !spec_split_char(name, '/').contains(".."@)
}

/// Whether an entry path is safe to materialise below the destination.
pub fn is_safe_entry_path(name: &str) -> (r: bool)
    ensures
        r == spec_safe_entry_path(name@),
{
    let n = name.unicode_len();
    if n == 0 {
        return false;
    }
    if name.get_char(0) == '/' {
        return false;
    }
    match find_char_from(name, '\\', 0) {
        Some(i) => {
            proof {
                assert(name@.contains('\\'));
            }
            return false;
        },
        None => {},
    }
    match find_char_from(name, ':', 0) {
        Some(i) => {
            proof {
                assert(name@.contains(':'));
            }
            return false;
        },
        None => {},
    }
    let parts = split_char(name, '/');
    let mut i: usize = 0;
    proof {
        assert(parts.deep_view().len() == parts@.len());
    }
    while i < parts.len()
        invariant
            i <= parts@.len(),
            parts.deep_view() == spec_split_char(name@, '/'),
            parts.deep_view().len() == parts@.len(),
            forall|k: int| 0 <= k < i ==> parts.deep_view()[k] != ".."@,
            name@.len() > 0,
            name@[0] != '/',
            !name@.contains('\\'),
            !name@.contains(':'),
        decreases parts@.len() - i,
    {
        if str_eq(parts[i].as_str(), "..") {
            proof {
                assert(parts.deep_view()[i as int] == ".."@);
                assert(spec_split_char(name@, '/').contains(".."@));
            }
            return false;
        }
        i += 1;
    }
    true
}

/// Whether some exclude prefix matches the entry path, at its start or
/// anywhere inside it.
pub open spec fn spec_entry_excluded(name: Seq<char>, excludes: Seq<Seq<char>>) -> bool {
    exists|i: int|
        0 <= i < excludes.len() && (spec_starts_with(name, #[trigger] excludes[i])
            || spec_contains(name, excludes[i]))
}

/// Whether some exclude prefix matches the entry path.
pub fn entry_excluded(name: &str, excludes: &Vec<String>) -> (r: bool)
    ensures
        r == spec_entry_excluded(name@, excludes.deep_view()),
{
    let mut i: usize = 0;
    proof {
        assert(excludes.deep_view().len() == excludes@.len());
    }
    while i < excludes.len()
        invariant
            i <= excludes@.len(),
            excludes.deep_view().len() == excludes@.len(),
            forall|k: int|
                0 <= k < i ==> !(spec_starts_with(name@, #[trigger] excludes.deep_view()[k])
                    || spec_contains(name@, excludes.deep_view()[k])),
        decreases excludes@.len() - i,
    {
        proof {
            assert(excludes.deep_view()[i as int] == excludes@[i as int]@);
        }
        if str_starts_with(name, excludes[i].as_str()) || str_contains(name, excludes[i].as_str()) {
            return true;
        }
        i += 1;
    }
    false
}

/// Whether an entry is materialised: its path is safe and not excluded.
pub open spec fn spec_keep_entry(name: Seq<char>, excludes: Seq<Seq<char>>) -> bool {
    spec_safe_entry_path(name) && !spec_entry_excluded(name, excludes)
}

/// The images of extracted entries.
pub open spec fn entries_view(s: Seq<ArchiveEntry>) -> Seq<(Seq<char>, bool, Seq<u8>)> {
    s.map_values(|e: ArchiveEntry| (e.name@, e.is_dir, e.data@))
}

/// The entries of an archive that an extraction materialises, in order.
pub open spec fn spec_extract_plan(
    entries: Seq<(Seq<char>, bool, Seq<u8>)>,
    excludes: Seq<Seq<char>>,
) -> Seq<(Seq<char>, bool, Seq<u8>)>
    decreases entries.len(),
{
    if entries.len() == 0 {
        Seq::<(Seq<char>, bool, Seq<u8>)>::empty()
    } else {
        let rest = spec_extract_plan(entries.drop_first(), excludes);
        if spec_keep_entry(entries[0].0, excludes) {
            seq![entries[0]] + rest
        } else {
            rest
        }
    }
}

/// Reads a ZIP archive held in memory and returns the entries an
/// extraction materialises: those with safe, non-excluded paths, in
/// archive order.  Succeeds exactly on fully readable archives; anything
/// else is an `ArchiveError`.
pub fn extract_plan(data: &Vec<u8>, excludes: &Vec<String>) -> (r: Result<
    Vec<ArchiveEntry>,
    LauncherError,
>)
    ensures
        match r {
            Ok(es) => spec_zip_fully_readable(data@) && entries_view(es@) == spec_extract_plan(
                spec_zip_entries(data@),
                excludes.deep_view(),
            ),
            Err(LauncherError::ArchiveError) => !spec_zip_fully_readable(data@),
            Err(_) => false,
        },
{
    let ghost raw = spec_zip_entries(data@);
    let ghost excl = excludes.deep_view();
    let count = match zip_entry_count(data) {
        Ok(n) => n,
        Err(_) => {
            return Err(LauncherError::ArchiveError);
        },
    };
    let mut out: Vec<ArchiveEntry> = Vec::new();
    let mut i: usize = 0;
    proof {
        assert(entries_view(out@) =~= Seq::<(Seq<char>, bool, Seq<u8>)>::empty());
        assert(raw.skip(0) =~= raw);
        assert(entries_view(out@) + spec_extract_plan(raw, excl) =~= spec_extract_plan(raw, excl));
    }
    while i < count
        invariant
            i <= count,
            count == raw.len(),
            raw == spec_zip_entries(data@),
            excl == excludes.deep_view(),
            spec_zip_readable(data@),
            forall|k: int| 0 <= k < i ==> spec_zip_entry_readable(data@, k),
            spec_extract_plan(raw, excl) == entries_view(out@) + spec_extract_plan(
                raw.skip(i as int),
                excl,
            ),
        decreases count - i,
    {
        let ghost old_out = entries_view(out@);
        let ghost tail = raw.skip(i as int);
        let entry = match zip_entry_read(data, i) {
            Ok(e) => e,
            Err(_) => {
                return Err(LauncherError::ArchiveError);
            },
        };
        proof {
            assert(tail[0] == raw[i as int]);
            assert(tail.drop_first() =~= raw.skip(i + 1));
        }
        let keep = is_safe_entry_path(entry.name.as_str()) && !entry_excluded(
            entry.name.as_str(),
            excludes,
        );
        if keep {
            let ghost em = (entry.name@, entry.is_dir, entry.data@);
            out.push(entry);
            proof {
                assert(entries_view(out@) =~= old_out.push(em));
                assert(entries_view(out@) =~= old_out + seq![tail[0]]);
            }
        } else {
            proof {
                assert(entries_view(out@) =~= old_out);
            }
        }
        i += 1;
    }
    proof {
        assert(raw.skip(raw.len() as int) =~= Seq::<(Seq<char>, bool, Seq<u8>)>::empty());
        assert(entries_view(out@) =~= spec_extract_plan(raw, excl));
    }
    Ok(out)
}

/// Reads a gzipped tar archive held in memory and returns the entries an
/// extraction materialises, as `extract_plan` does for ZIP.  Succeeds
/// exactly on fully readable archives.
pub fn targz_extract_plan(data: &Vec<u8>, excludes: &Vec<String>) -> (r: Result<
    Vec<ArchiveEntry>,
    LauncherError,
>)
    ensures
        match r {
            Ok(es) => spec_targz_fully_readable(data@) && entries_view(es@) == spec_extract_plan(
                spec_targz_entries(data@),
                excludes.deep_view(),
            ),
            Err(LauncherError::ArchiveError) => !spec_targz_fully_readable(data@),
            Err(_) => false,
        },
{
    let ghost raw = spec_targz_entries(data@);
    let ghost excl = excludes.deep_view();
    let count = match targz_entry_count(data) {
        Ok(n) => n,
        Err(_) => {
            return Err(LauncherError::ArchiveError);
        },
    };
    let mut out: Vec<ArchiveEntry> = Vec::new();
    let mut i: usize = 0;
    proof {
        assert(entries_view(out@) =~= Seq::<(Seq<char>, bool, Seq<u8>)>::empty());
        assert(raw.skip(0) =~= raw);
        assert(entries_view(out@) + spec_extract_plan(raw, excl) =~= spec_extract_plan(raw, excl));
    }
    while i < count
        invariant
            i <= count,
            count == raw.len(),
            raw == spec_targz_entries(data@),
            excl == excludes.deep_view(),
            spec_targz_readable(data@),
            forall|k: int| 0 <= k < i ==> spec_targz_entry_readable(data@, k),
            spec_extract_plan(raw, excl) == entries_view(out@) + spec_extract_plan(
                raw.skip(i as int),
                excl,
            ),
        decreases count - i,
    {
        let ghost old_out = entries_view(out@);
        let ghost tail = raw.skip(i as int);
        let entry = match targz_entry_read(data, i) {
            Ok(e) => e,
            Err(_) => {
                return Err(LauncherError::ArchiveError);
            },
        };
        proof {
            assert(tail[0] == raw[i as int]);
            assert(tail.drop_first() =~= raw.skip(i + 1));
        }
        let keep = is_safe_entry_path(entry.name.as_str()) && !entry_excluded(
            entry.name.as_str(),
            excludes,
        );
        if keep {
            let ghost em = (entry.name@, entry.is_dir, entry.data@);
            out.push(entry);
            proof {
                assert(entries_view(out@) =~= old_out.push(em));
                assert(entries_view(out@) =~= old_out + seq![tail[0]]);
            }
        } else {
            proof {
                assert(entries_view(out@) =~= old_out);
            }
        }
        i += 1;
    }
    proof {
        assert(raw.skip(raw.len() as int) =~= Seq::<(Seq<char>, bool, Seq<u8>)>::empty());
        assert(entries_view(out@) =~= spec_extract_plan(raw, excl));
    }
    Ok(out)
}

/// Extraction of either archive format the pipeline meets: ZIP on Windows
/// runtimes and native JARs, gzipped tar on POSIX runtimes.
pub fn plan_archive_extraction(data: &Vec<u8>, kind: ArchiveKind, excludes: &Vec<String>) -> (r:
    Result<Vec<ArchiveEntry>, LauncherError>)
    ensures
        match kind {
            ArchiveKind::Zip => match r {
                Ok(es) => spec_zip_fully_readable(data@) && entries_view(es@) == spec_extract_plan(
                    spec_zip_entries(data@),
                    excludes.deep_view(),
                ),
                Err(LauncherError::ArchiveError) => !spec_zip_fully_readable(data@),
                Err(_) => false,
            },
            ArchiveKind::TarGz => match r {
                Ok(es) => spec_targz_fully_readable(data@) && entries_view(es@)
                    == spec_extract_plan(spec_targz_entries(data@), excludes.deep_view()),
                Err(LauncherError::ArchiveError) => !spec_targz_fully_readable(data@),
                Err(_) => false,
            },
        },
{
    match kind {
        ArchiveKind::Zip => extract_plan(data, excludes),
        ArchiveKind::TarGz => targz_extract_plan(data, excludes),
    }
}

} // verus!
