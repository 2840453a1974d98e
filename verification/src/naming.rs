//! Derivation of local file names, sibling decompressed paths, and table
//! identifiers from dataset locators. All of these are pure string functions:
//! the fetcher, the decompressor and the store client are pointed at paths
//! computed here, so every stage agrees on the same names by construction.

use vstd::prelude::*;
use vstd::string::*;
use crate::text::{strip_suffix, strip_suffix_str, tail_after, tail_after_char};

verus! {

/// The local file name for a fetched resource: the locator's final
/// path segment, or the fixed placeholder when that segment is empty.
pub open spec fn download_name_spec(url: Seq<char>) -> Seq<char> {
    if tail_after(url, '/').len() == 0 {
        "tmp.bin"@
    } else {
        tail_after(url, '/')
    }
}

pub fn download_file_name(url: &str) -> (r: String)
    ensures
        r@ == download_name_spec(url@),
{
    let t = tail_after_char(url, '/');
    if t.as_str().unicode_len() == 0 {
        "tmp.bin".to_owned()
    } else {
        t
    }
}

/// `dir` and `name` joined by a single path separator.
pub open spec fn joined_path(dir: Seq<char>, name: Seq<char>) -> Seq<char> {
    dir + "/"@ + name
}

pub fn local_path(dir: &str, name: &str) -> (r: String)
    ensures
        r@ == joined_path(dir@, name@),
{
    let mut r = dir.to_owned();
    r.append("/");
    r.append(name);
    r
}

/// The decompressed sibling of a compressed file: the same path with the
/// compression suffix stripped. Computed by string suffix removal, so it must
/// stay consistent with the external decompressor's output naming.
pub open spec fn decompressed_path_spec(path: Seq<char>) -> Seq<char> {
    strip_suffix(path, ".gz"@)
}

pub fn decompressed_path(path: &str) -> (r: String)
    ensures
        r@ == decompressed_path_spec(path@),
{
    strip_suffix_str(path, ".gz")
}

/// Every `.` replaced by `_`, character for character.
pub open spec fn map_dots(s: Seq<char>) -> Seq<char> {
    Seq::new(s.len(), |i: int| if s[i] == '.' { '_' } else { s[i] })
}

pub fn dots_to_underscores(s: &str) -> (r: String)
    ensures
        r@ == map_dots(s@),
{
    let n = s.unicode_len();
    let mut out = String::new();
    let mut start: usize = 0;
    let mut i: usize = 0;
    proof {
        reveal_strlit("_");
        assert(out@ =~= map_dots(s@).take(0));
    }
    while i < n
        invariant
            0 <= start <= i <= n,
            n == s@.len(),
            forall|j: int| start <= j < i ==> s@[j] != '.',
            out@ == map_dots(s@).take(start as int),
            "_"@ == seq!['_'],
        decreases n - i,
    {
        if s.get_char(i) == '.' {
            out.append(s.substring_char(start, i));
            out.append("_");
            proof {
                assert(s@.subrange(start as int, i as int) =~= map_dots(s@).subrange(
                    start as int,
                    i as int,
                ));
                assert(map_dots(s@).take(start as int) + map_dots(s@).subrange(
                    start as int,
                    i as int,
                ) + seq![map_dots(s@)[i as int]] =~= map_dots(s@).take(i + 1));
            }
            start = i + 1;
        }
        i += 1;
    }
    out.append(s.substring_char(start, n));
    proof {
        assert(s@.subrange(start as int, n as int) =~= map_dots(s@).subrange(
            start as int,
            n as int,
        ));
        assert(map_dots(s@).take(start as int) + map_dots(s@).subrange(start as int, n as int)
            =~= map_dots(s@));
    }
    out
}

/// The stable table identifier for a dataset file: the final path segment,
/// with the tabular-file suffix stripped, and every remaining `.` replaced by
/// `_`. Deterministic; collision-free over the curated dataset list, though
/// not over arbitrary inputs.
pub open spec fn table_name_spec(path: Seq<char>) -> Seq<char> {
    map_dots(strip_suffix(tail_after(path, '/'), ".tsv"@))
}

pub fn table_name_for(path: &str) -> (r: String)
    ensures
        r@ == table_name_spec(path@),
{
    let base = tail_after_char(path, '/');
    let stem = strip_suffix_str(base.as_str(), ".tsv");
    dots_to_underscores(stem.as_str())
}

} // verus!
