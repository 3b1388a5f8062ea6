//! Archive expander logic: the `artist/album` directory pair derived from
//! an archive's file stem, and the model of the flattening step that moves
//! every file found in a subdirectory of the extraction target up into the
//! target itself.

use vstd::prelude::*;

use crate::defaults::{sentinel_seq, sentinel_vec};
use crate::paths::subvec;
use crate::text::{lower_seq, lower_vec, string_from_chars, trim_seq, trim_vec};

verus! {

/// Why no destination can be derived from an archive name.
#[derive(Clone, Copy, Debug, PartialEq, Eq, Structural)]
pub enum ArchiveNameError {
    /// The stem splits into no usable token: its artist part is empty.
    NoTokens,
}

/// First occurrence of `c` at or after `i`, or `s.len()` if there is none.
pub open spec fn first_index_from(s: Seq<char>, i: int, c: char) -> int
    decreases s.len() - i,
{
    if 0 <= i && i < s.len() && s[i] != c {
        first_index_from(s, i + 1, c)
    } else {
        i
    }
}

/// The artist directory name: the stem's first `-`-separated token,
/// trimmed and lowercased.
pub open spec fn spec_archive_artist(stem: Seq<char>) -> Seq<char> {
    lower_seq(trim_seq(stem.subrange(0, first_index_from(stem, 0, '-'))))
}

/// The album directory name: the second `-`-separated token, trimmed and
/// lowercased; the sentinel album name where the stem has a single token.
pub open spec fn spec_archive_album(stem: Seq<char>) -> Seq<char> {
    let d0 = first_index_from(stem, 0, '-');
    if d0 == stem.len() {
        sentinel_seq()
    } else {
        lower_seq(trim_seq(stem.subrange(d0 + 1, first_index_from(stem, d0 + 1, '-'))))
    }
}

fn first_index_from_vec(v: &Vec<char>, i: usize, c: char) -> (e: usize)
    requires
        i <= v@.len(),
    ensures
        e == first_index_from(v@, i as int, c),
        i <= e <= v@.len(),
{
    let n = v.len();
    let mut e: usize = i;
    while e < n && v[e] != c
        invariant
            n == v@.len(),
            i <= e <= n,
            first_index_from(v@, i as int, c) == first_index_from(v@, e as int, c),
        decreases n - e,
    {
        e = e + 1;
    }
    e
}

/// Derive the `(artist, album)` directory names from an archive's file
/// stem: split on `-`, trim and lowercase each token, the album falling
/// back to the sentinel name where only one token exists. Fails exactly
/// where the artist token comes out empty.
pub fn archive_destination(stem: &str) -> (r: Result<(String, String), ArchiveNameError>)
    ensures
        r is Ok <==> spec_archive_artist(stem@).len() > 0,
        r matches Err(e) ==> e == ArchiveNameError::NoTokens,
        r matches Ok(p) ==> p.0@ == spec_archive_artist(stem@) && p.1@ == spec_archive_album(
            stem@,
        ),
{
    let v = crate::text::chars_vec(stem);
    let n = v.len();
    let d0 = first_index_from_vec(&v, 0, '-');
    let artist = lower_vec(&trim_vec(&subvec(&v, 0, d0)));
    if artist.len() == 0 {
        return Err(ArchiveNameError::NoTokens);
    }
    let album = if d0 == n {
        sentinel_vec()
    } else {
        let d1 = first_index_from_vec(&v, d0 + 1, '-');
        lower_vec(&trim_vec(&subvec(&v, d0 + 1, d1)))
    };
    Ok((string_from_chars(&artist), string_from_chars(&album)))
}

/// A directory as the flattening step sees it: the names of its files and
/// its subdirectories, in traversal order.
pub struct DirTree {
    pub files: Vec<String>,
    pub subdirs: Vec<DirTree>,
}

/// Every file name in the tree, depth first: the directory's own files,
/// then those of each subdirectory in turn.
pub open spec fn tree_files(t: DirTree) -> Seq<Seq<char>>
    decreases t,
{
    t.files.deep_view() + forest_files(t.subdirs@)
}

pub open spec fn forest_files(s: Seq<DirTree>) -> Seq<Seq<char>>
    decreases s,
{
    if s.len() == 0 {
        Seq::empty()
    } else {
        tree_files(s[0]) + forest_files(s.drop_first())
    }
}

proof fn lemma_forest_snoc(s: Seq<DirTree>, t: DirTree)
    ensures
        forest_files(s.push(t)) == forest_files(s) + tree_files(t),
    decreases s.len(),
{
    let u = s.push(t);
    if s.len() == 0 {
        assert(u.drop_first() =~= Seq::<DirTree>::empty());
        assert(u[0] == t);
        assert(forest_files(u.drop_first()) == Seq::<Seq<char>>::empty());
        assert(tree_files(t) + Seq::<Seq<char>>::empty() =~= tree_files(t));
        assert(forest_files(s) + tree_files(t) =~= tree_files(t));
    } else {
        assert(u.drop_first() =~= s.drop_first().push(t));
        lemma_forest_snoc(s.drop_first(), t);
        assert(u[0] == s[0]);
        assert((tree_files(s[0]) + forest_files(s.drop_first())) + tree_files(t) =~= tree_files(
            s[0],
        ) + (forest_files(s.drop_first()) + tree_files(t)));
    }
}

/// Append every file name in the tree to `out`, depth first.
#[verifier::loop_isolation(false)]
fn gather_files(t: DirTree, out: &mut Vec<String>)
    ensures
        final(out).deep_view() == old(out).deep_view() + tree_files(t),
    decreases t,
{
    let ghost t0 = t;
    let DirTree { files, mut subdirs } = t;
    let mut files = files;
    let nf = files.len();
    let mut i: usize = 0;
    proof {
        assert(out.deep_view() + files.deep_view().subrange(0, 0) =~~= out.deep_view());
    }
    while i < nf
        invariant
            nf == files@.len(),
            i <= nf,
            files@ == t0.files@,
            out.deep_view() == old(out).deep_view() + t0.files.deep_view().subrange(0, i as int),
        decreases nf - i,
    {
        let ghost before = out.deep_view();
        let f = files[i].clone();
        proof {
            assert(f@ == t0.files@[i as int]@);
        }
        out.push(f);
        i = i + 1;
        proof {
            assert(out.deep_view() =~~= before + seq![t0.files@[i - 1]@]);
            assert(before + seq![t0.files@[i - 1]@] =~~= old(out).deep_view()
                + t0.files.deep_view().subrange(0, i as int));
        }
    }
    proof {
        assert(t0.files.deep_view().subrange(0, nf as int) =~~= t0.files.deep_view());
    }
    let ghost mut j: int = 0;
    proof {
        assert(forest_files(t0.subdirs@.subrange(0, 0)) == Seq::<Seq<char>>::empty());
        assert(out.deep_view() + Seq::<Seq<char>>::empty() =~~= out.deep_view());
        assert(t0.subdirs@.skip(0) =~= t0.subdirs@);
    }
    while subdirs.len() > 0
        invariant
            0 <= j <= t0.subdirs@.len(),
            subdirs@ == t0.subdirs@.skip(j),
            out.deep_view() == old(out).deep_view() + t0.files.deep_view() + forest_files(
                t0.subdirs@.subrange(0, j),
            ),
        decreases subdirs@.len(),
    {
        let ghost before = out.deep_view();
        let sub = subdirs.remove(0);
        proof {
            assert(sub == t0.subdirs@.skip(j)[0]);
            assert(sub == t0.subdirs@[j]);
            assert(t0.subdirs@.skip(j).skip(1) =~= t0.subdirs@.skip(j + 1));
            vstd::std_specs::vec::axiom_vec_index_decreases(t0.subdirs, j);
            assert(decreases_to!(t0 => t0.subdirs));
            assert(decreases_to!(t0 => sub));
        }
        gather_files(sub, out);
        proof {
            j = j + 1;
            assert(t0.subdirs@.subrange(0, j) =~= t0.subdirs@.subrange(0, j - 1).push(
                t0.subdirs@[j - 1],
            ));
            lemma_forest_snoc(t0.subdirs@.subrange(0, j - 1), t0.subdirs@[j - 1]);
            assert(out.deep_view() =~~= old(out).deep_view() + t0.files.deep_view()
                + forest_files(t0.subdirs@.subrange(0, j)));
        }
    }
    proof {
        assert(j == t0.subdirs@.len());
        assert(t0.subdirs@.subrange(0, j) =~= t0.subdirs@);
        assert(old(out).deep_view() + t0.files.deep_view() + forest_files(t0.subdirs@) =~~= old(
            out,
        ).deep_view() + (t0.files.deep_view() + forest_files(t0.subdirs@)));
    }
}

/// Flatten a directory tree: the result holds every file of the tree, in
/// depth-first order, and no subdirectory.
pub fn flatten_tree(t: DirTree) -> (r: DirTree)
    ensures
        r.subdirs@.len() == 0,
        r.files.deep_view() == tree_files(t),
{
    let ghost t0 = t;
    let mut out: Vec<String> = Vec::new();
    gather_files(t, &mut out);
    proof {
        assert(Seq::<Seq<char>>::empty() + tree_files(t0) =~~= tree_files(t0));
        assert(out.deep_view() =~~= tree_files(t0));
    }
    DirTree { files: out, subdirs: Vec::new() }
}

/// Law: flattening is idempotent on directory structure. Any flat tree
/// holding the files a flattening pass produced — which is what
/// `flatten_tree` returns — flattens to exactly those files again, so a
/// second pass reproduces it.
pub proof fn lemma_flatten_idempotent(t: DirTree, r: DirTree)
    requires
        r.subdirs@.len() == 0,
        r.files.deep_view() == tree_files(t),
    ensures
        tree_files(r) == tree_files(t),
{
    assert(r.subdirs@ =~= Seq::<DirTree>::empty());
    assert(tree_files(r) =~~= r.files.deep_view());
}

/// Law: a directory that is already flat is left unchanged by flattening —
/// its flattened file list is exactly its own.
pub proof fn lemma_flatten_flat_unchanged(t: DirTree)
    requires
        t.subdirs@.len() == 0,
    ensures
        tree_files(t) == t.files.deep_view(),
{
    assert(t.subdirs@ =~= Seq::<DirTree>::empty());
    assert(tree_files(t) =~~= t.files.deep_view());
}

} // verus!
