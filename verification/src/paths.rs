//! Path arithmetic on plain strings with `/` as the separator: file name,
//! stem and extension extraction, the two ancestor directory names above a
//! file, and the extension-based classification of a path as audio file,
//! archive file or other.

use vstd::prelude::*;

use crate::text::{chars_eq, chars_vec, lower_seq, lower_vec, string_from_chars};

verus! {

/// Index of the last occurrence of `c` in `s`, or `-1` if there is none.
pub open spec fn last_index_of(s: Seq<char>, c: char) -> int
    decreases s.len(),
{
    if s.len() == 0 {
        -1
    } else if s.last() == c {
        s.len() - 1
    } else {
        last_index_of(s.drop_last(), c)
    }
}

/// The part of the path after the last `/`; the whole path if there is none.
pub open spec fn spec_file_name(s: Seq<char>) -> Seq<char> {
    s.skip(last_index_of(s, '/') + 1)
}

/// The file name without its extension. A dot at the start of the name
/// (a hidden file) does not begin an extension.
pub open spec fn spec_file_stem(s: Seq<char>) -> Seq<char> {
    let name = spec_file_name(s);
    let d = last_index_of(name, '.');
    if d > 0 {
        name.subrange(0, d)
    } else {
        name
    }
}

/// The extension of the file name: what follows the last dot, provided the
/// dot is neither absent nor the first character of the name.
pub open spec fn spec_extension(s: Seq<char>) -> Option<Seq<char>> {
    let name = spec_file_name(s);
    let d = last_index_of(name, '.');
    if d > 0 {
        Some(name.skip(d + 1))
    } else {
        None
    }
}

pub open spec fn mp3_seq() -> Seq<char> {
    seq!['m', 'p', '3']
}

pub open spec fn zip_seq() -> Seq<char> {
    seq!['z', 'i', 'p']
}

pub open spec fn rar_seq() -> Seq<char> {
    seq!['r', 'a', 'r']
}

pub open spec fn tar_seq() -> Seq<char> {
    seq!['t', 'a', 'r']
}

pub open spec fn sevenz_seq() -> Seq<char> {
    seq!['7', 'z']
}

pub open spec fn gz_seq() -> Seq<char> {
    seq!['g', 'z']
}

/// The path names an audio file: its extension is `mp3`, case-insensitively.
pub open spec fn spec_is_audio_file(s: Seq<char>) -> bool {
    match spec_extension(s) {
        Some(e) => lower_seq(e) == mp3_seq(),
        None => false,
    }
}

/// The path looks like an archive: its extension is one of the archive
/// extension superset, case-insensitively.
pub open spec fn spec_is_archive_file(s: Seq<char>) -> bool {
    match spec_extension(s) {
        Some(e) => {
            let l = lower_seq(e);
            l == zip_seq() || l == rar_seq() || l == tar_seq() || l == sevenz_seq() || l
                == gz_seq()
        },
        None => false,
    }
}

/// The path names an archive of the one supported format.
pub open spec fn spec_is_zip_file(s: Seq<char>) -> bool {
    match spec_extension(s) {
        Some(e) => lower_seq(e) == zip_seq(),
        None => false,
    }
}

/// Index of the last `c` in the vector, as the spec function gives it.
pub fn last_index_of_vec(v: &Vec<char>, c: char) -> (r: Option<usize>)
    ensures
        match r {
            Some(i) => i < v@.len() && last_index_of(v@, c) == i,
            None => last_index_of(v@, c) == -1,
        },
{
    let n = v.len();
    let mut i: usize = n;
    proof {
        assert(v@.subrange(0, n as int) =~= v@);
    }
    while i > 0
        invariant
            n == v@.len(),
            i <= n,
            last_index_of(v@, c) == last_index_of(v@.subrange(0, i as int), c),
        decreases i,
    {
        if v[i - 1] == c {
            proof {
                assert(v@.subrange(0, i as int).last() == v@[i - 1]);
            }
            return Some(i - 1);
        }
        proof {
            assert(v@.subrange(0, i as int).drop_last() =~= v@.subrange(0, i as int - 1));
        }
        i = i - 1;
    }
    proof {
        assert(v@.subrange(0, 0) =~= Seq::<char>::empty());
    }
    None
}

/// Copy of the range `[from, to)` of the vector.
pub fn subvec(v: &Vec<char>, from: usize, to: usize) -> (r: Vec<char>)
    requires
        from <= to <= v@.len(),
    ensures
        r@ == v@.subrange(from as int, to as int),
{
    let mut r: Vec<char> = Vec::new();
    let mut i: usize = from;
    while i < to
        invariant
            from <= i <= to <= v@.len(),
            r@ == v@.subrange(from as int, i as int),
        decreases to - i,
    {
        r.push(v[i]);
        i = i + 1;
        proof {
            assert(r@ =~= v@.subrange(from as int, i as int));
        }
    }
    r
}

/// The file-name part of the path, as a character vector.
pub fn file_name_chars(v: &Vec<char>) -> (r: Vec<char>)
    ensures
        r@ == spec_file_name(v@),
{
    let n = v.len();
    match last_index_of_vec(v, '/') {
        Some(i) => {
            let r = subvec(v, i + 1, n);
            proof {
                assert(v@.subrange(i as int + 1, n as int) =~= v@.skip(i as int + 1));
            }
            r
        },
        None => {
            let r = subvec(v, 0, n);
            proof {
                assert(v@.subrange(0, n as int) =~= v@.skip(0));
            }
            r
        },
    }
}

/// The stem of the path's file name, as a character vector.
pub fn file_stem_chars(v: &Vec<char>) -> (r: Vec<char>)
    ensures
        r@ == spec_file_stem(v@),
{
    let name = file_name_chars(v);
    match last_index_of_vec(&name, '.') {
        Some(d) if d > 0 => subvec(&name, 0, d),
        _ => name,
    }
}

/// The file name of the path without its extension.
pub fn file_stem(path: &str) -> (r: String)
    ensures
        r@ == spec_file_stem(path@),
{
    let v = chars_vec(path);
    let stem = file_stem_chars(&v);
    string_from_chars(&stem)
}

/// The path's extension, lowercased, or `None` where it has none.
pub fn extension_lower_chars(v: &Vec<char>) -> (r: Option<Vec<char>>)
    ensures
        match r {
            Some(e) => spec_extension(v@) matches Some(x) && e@ == lower_seq(x),
            None => spec_extension(v@) is None,
        },
{
    let name = file_name_chars(v);
    let n = name.len();
    match last_index_of_vec(&name, '.') {
        Some(d) if d > 0 => {
            let ext = subvec(&name, d + 1, n);
            proof {
                assert(name@.subrange(d as int + 1, n as int) =~= name@.skip(d as int + 1));
            }
            Some(lower_vec(&ext))
        },
        _ => None,
    }
}

fn mp3_vec() -> (r: Vec<char>)
    ensures
        r@ == mp3_seq(),
{
    let mut v: Vec<char> = Vec::new();
    v.push('m');
    v.push('p');
    v.push('3');
    proof {
        assert(v@ =~= mp3_seq());
    }
    v
}

fn zip_vec() -> (r: Vec<char>)
    ensures
        r@ == zip_seq(),
{
    let mut v: Vec<char> = Vec::new();
    v.push('z');
    v.push('i');
    v.push('p');
    proof {
        assert(v@ =~= zip_seq());
    }
    v
}

fn rar_vec() -> (r: Vec<char>)
    ensures
        r@ == rar_seq(),
{
    let mut v: Vec<char> = Vec::new();
    v.push('r');
    v.push('a');
    v.push('r');
    proof {
        assert(v@ =~= rar_seq());
    }
    v
}

fn tar_vec() -> (r: Vec<char>)
    ensures
        r@ == tar_seq(),
{
    let mut v: Vec<char> = Vec::new();
    v.push('t');
    v.push('a');
    v.push('r');
    proof {
        assert(v@ =~= tar_seq());
    }
    v
}

fn sevenz_vec() -> (r: Vec<char>)
    ensures
        r@ == sevenz_seq(),
{
    let mut v: Vec<char> = Vec::new();
    v.push('7');
    v.push('z');
    proof {
        assert(v@ =~= sevenz_seq());
    }
    v
}

fn gz_vec() -> (r: Vec<char>)
    ensures
        r@ == gz_seq(),
{
    let mut v: Vec<char> = Vec::new();
    v.push('g');
    v.push('z');
    proof {
        assert(v@ =~= gz_seq());
    }
    v
}

/// Does the path name an `mp3` file, by extension alone?
pub fn is_audio_file(path: &str) -> (r: bool)
    ensures
        r == spec_is_audio_file(path@),
{
    let v = chars_vec(path);
    match extension_lower_chars(&v) {
        Some(e) => chars_eq(&e, &mp3_vec()),
        None => false,
    }
}

/// Does the path look like an archive, by extension alone?
pub fn is_archive_file(path: &str) -> (r: bool)
    ensures
        r == spec_is_archive_file(path@),
{
    let v = chars_vec(path);
    match extension_lower_chars(&v) {
        Some(e) => chars_eq(&e, &zip_vec()) || chars_eq(&e, &rar_vec()) || chars_eq(&e, &tar_vec())
            || chars_eq(&e, &sevenz_vec()) || chars_eq(&e, &gz_vec()),
        None => false,
    }
}

/// The archive formats the expander distinguishes: the one it supports,
/// and everything else.
#[derive(Clone, Copy, Debug, PartialEq, Eq, Structural)]
pub enum ArchiveType {
    Zip,
    Unsupported,
}

impl ArchiveType {
    /// Classify an extension string, case-insensitively.
    pub fn from_str(ext: &str) -> (r: ArchiveType)
        ensures
            r == (if lower_seq(ext@) == zip_seq() {
                ArchiveType::Zip
            } else {
                ArchiveType::Unsupported
            }),
    {
        let v = chars_vec(ext);
        let l = lower_vec(&v);
        if chars_eq(&l, &zip_vec()) {
            ArchiveType::Zip
        } else {
            ArchiveType::Unsupported
        }
    }
}

/// The path has a parent directory: it is neither empty nor the root `/`.
pub open spec fn spec_has_parent(s: Seq<char>) -> bool {
    s.len() > 0 && !(s.len() == 1 && s[0] == '/')
}

/// Everything before the last `/`; empty where the path has no `/`.
pub open spec fn spec_parent_part(s: Seq<char>) -> Seq<char> {
    let ls = last_index_of(s, '/');
    if ls >= 0 {
        s.subrange(0, ls)
    } else {
        Seq::empty()
    }
}

/// `s` with trailing `/` characters removed.
pub open spec fn trim_slash_end(s: Seq<char>) -> Seq<char>
    decreases s.len(),
{
    if s.len() > 0 && s.last() == '/' {
        trim_slash_end(s.drop_last())
    } else {
        s
    }
}

/// The fallback name used when a path is too shallow to supply an ancestor.
pub open spec fn unknown_seq() -> Seq<char> {
    seq!['u', 'n', 'k', 'n', 'o', 'w', 'n']
}

/// The name of the directory holding the file: the last nonempty
/// `/`-separated segment above the file name, or `unknown`.
pub open spec fn spec_album_source(s: Seq<char>) -> Seq<char> {
    let p = trim_slash_end(spec_parent_part(s));
    if p.len() > 0 {
        spec_file_name(p)
    } else {
        unknown_seq()
    }
}

/// The name of the grandparent directory: the second nonempty segment
/// above the file name, or `unknown`.
pub open spec fn spec_artist_source(s: Seq<char>) -> Seq<char> {
    let p = trim_slash_end(spec_parent_part(s));
    let q = trim_slash_end(spec_parent_part(p));
    if p.len() > 0 && q.len() > 0 {
        spec_file_name(q)
    } else {
        unknown_seq()
    }
}

pub fn unknown_vec() -> (r: Vec<char>)
    ensures
        r@ == unknown_seq(),
{
    let mut v: Vec<char> = Vec::new();
    v.push('u');
    v.push('n');
    v.push('k');
    v.push('n');
    v.push('o');
    v.push('w');
    v.push('n');
    proof {
        assert(v@ =~= unknown_seq());
    }
    v
}

/// Does the path have a parent directory?
pub fn has_parent(path: &str) -> (r: bool)
    ensures
        r == spec_has_parent(path@),
{
    let v = chars_vec(path);
    let n = v.len();
    if n == 0 {
        false
    } else if n == 1 && v[0] == '/' {
        false
    } else {
        true
    }
}

fn parent_part_chars(v: &Vec<char>) -> (r: Vec<char>)
    ensures
        r@ == spec_parent_part(v@),
{
    match last_index_of_vec(v, '/') {
        Some(i) => subvec(v, 0, i),
        None => {
            proof {
                assert(Seq::<char>::empty() =~= v@.subrange(0, 0));
            }
            subvec(v, 0, 0)
        },
    }
}

fn trim_slash_end_chars(v: &Vec<char>) -> (r: Vec<char>)
    ensures
        r@ == trim_slash_end(v@),
{
    let n = v.len();
    let mut end: usize = n;
    proof {
        assert(v@.subrange(0, n as int) =~= v@);
    }
    while end > 0 && v[end - 1] == '/'
        invariant
            n == v@.len(),
            end <= n,
            trim_slash_end(v@) == trim_slash_end(v@.subrange(0, end as int)),
        decreases end,
    {
        proof {
            let t = v@.subrange(0, end as int);
            assert(t.last() == v@[end - 1]);
            assert(t.drop_last() =~= v@.subrange(0, end as int - 1));
        }
        end = end - 1;
    }
    proof {
        let t = v@.subrange(0, end as int);
        if end > 0 {
            assert(t.last() == v@[end - 1]);
        }
        assert(trim_slash_end(t) == t);
    }
    subvec(v, 0, end)
}

/// The two nearest directory names above the file: `(parent, grandparent)`,
/// each `unknown` where the path is too shallow to supply it.
pub fn ancestor_sources(path: &str) -> (r: (Vec<char>, Vec<char>))
    ensures
        r.0@ == spec_album_source(path@),
        r.1@ == spec_artist_source(path@),
{
    let v = chars_vec(path);
    let p = trim_slash_end_chars(&parent_part_chars(&v));
    if p.len() == 0 {
        return (unknown_vec(), unknown_vec());
    }
    let album = file_name_chars(&p);
    let q = trim_slash_end_chars(&parent_part_chars(&p));
    if q.len() == 0 {
        return (album, unknown_vec());
    }
    let artist = file_name_chars(&q);
    (album, artist)
}

/// Classify a path's archive format from its extension.
pub fn archive_type(path: &str) -> (r: ArchiveType)
    ensures
        r == (if spec_is_zip_file(path@) {
            ArchiveType::Zip
        } else {
            ArchiveType::Unsupported
        }),
{
    let v = chars_vec(path);
    match extension_lower_chars(&v) {
        Some(e) => {
            if chars_eq(&e, &zip_vec()) {
                ArchiveType::Zip
            } else {
                ArchiveType::Unsupported
            }
        },
        None => ArchiveType::Unsupported,
    }
}

} // verus!
