//! Title parser: extracts an optional track number and a cleaned title from
//! a sanitized filename stem, given the already-resolved artist name. An
//! ordered fallback chain decides, first match winning:
//!
//! 1. numbered track — a two-digit prefix, then a run of non-alphanumeric
//!    separators, then a name segment of letters, digits, brackets, commas
//!    and spaces;
//! 2. separator — a prefix of letters, ampersands and spaces, a `-`, then a
//!    name segment of letters, digits and spaces;
//! 3. fallback — dashes and underscores become spaces, any artist-name
//!    substring is removed, and the result is trimmed.
//!
//! Before the patterns run, every artist-name substring is removed from the
//! stem and the result is trimmed; the numbered-track pattern and the
//! fallback then read it with every dash replaced by a space, while the
//! separator pattern reads the dash itself. The final title handed
//! downstream is additionally collapsed to single-spaced tokens with any
//! token equal to the artist name dropped.

use vstd::prelude::*;

use crate::text::{
    chars_eq, chars_vec, is_alnum_char, is_alpha_char, is_digit_char, is_ws, is_ws_char,
    remove_all, remove_all_vec, replace_seq, replace_vec, string_from_chars, trim_seq, trim_vec,
};
use crate::paths::subvec;

verus! {

/// Characters allowed in the name segment of the numbered-track pattern.
pub open spec fn is_name1_char(c: char) -> bool {
    is_alnum_char(c) || c == '(' || c == ')' || c == '[' || c == ']' || c == ',' || is_ws_char(c)
}

/// Characters allowed before the `-` in the separator pattern.
pub open spec fn is_prefix2_char(c: char) -> bool {
    is_alpha_char(c) || c == '&' || c == ' '
}

/// Characters allowed in the name segment of the separator pattern.
pub open spec fn is_name2_char(c: char) -> bool {
    is_alnum_char(c) || c == ' '
}

/// End of the run of non-alphanumeric characters starting at `i`.
pub open spec fn non_alnum_end(s: Seq<char>, i: int) -> int
    decreases s.len() - i,
{
    if 0 <= i && i < s.len() && !is_alnum_char(s[i]) {
        non_alnum_end(s, i + 1)
    } else {
        i
    }
}

/// End of the run of name-segment characters (pattern 1) starting at `i`.
pub open spec fn name1_end(s: Seq<char>, i: int) -> int
    decreases s.len() - i,
{
    if 0 <= i && i < s.len() && is_name1_char(s[i]) {
        name1_end(s, i + 1)
    } else {
        i
    }
}

/// End of the run of prefix characters (pattern 2) starting at `i`.
pub open spec fn prefix2_end(s: Seq<char>, i: int) -> int
    decreases s.len() - i,
{
    if 0 <= i && i < s.len() && is_prefix2_char(s[i]) {
        prefix2_end(s, i + 1)
    } else {
        i
    }
}

/// End of the run of name-segment characters (pattern 2) starting at `i`.
pub open spec fn name2_end(s: Seq<char>, i: int) -> int
    decreases s.len() - i,
{
    if 0 <= i && i < s.len() && is_name2_char(s[i]) {
        name2_end(s, i + 1)
    } else {
        i
    }
}

/// What the numbered-track pattern and the fallback see: the stem with
/// every artist-name substring removed and every dash replaced by a
/// space, trimmed.
pub open spec fn spec_parse_dashless(stem: Seq<char>, artist: Seq<char>) -> Seq<char> {
    trim_seq(replace_seq(remove_all(stem, artist), '-', ' '))
}

/// What the separator pattern sees: the same string with its dashes kept,
/// since the dash is that pattern's separator.
pub open spec fn spec_parse_dashed(stem: Seq<char>, artist: Seq<char>) -> Seq<char> {
    trim_seq(remove_all(stem, artist))
}

/// Pattern 1 applies: a two-digit prefix whose separators are followed by
/// at least one name-segment character.
pub open spec fn matches_numbered(p: Seq<char>) -> bool {
    p.len() >= 2 && is_digit_char(p[0]) && is_digit_char(p[1]) && non_alnum_end(p, 2) < p.len()
}

/// The track number the two-digit prefix denotes.
pub open spec fn numbered_track(p: Seq<char>) -> u32 {
    (((p[0] as int) - 48) * 10 + ((p[1] as int) - 48)) as u32
}

/// The name segment pattern 1 emits, trimmed.
pub open spec fn numbered_title(p: Seq<char>) -> Seq<char> {
    let ns = non_alnum_end(p, 2);
    trim_seq(p.subrange(ns, name1_end(p, ns)))
}

/// Pattern 2 applies: the prefix run is followed by a `-`.
pub open spec fn matches_dash(p: Seq<char>) -> bool {
    let e = prefix2_end(p, 0);
    e < p.len() && p[e] == '-'
}

/// The name segment pattern 2 emits, trimmed.
pub open spec fn dash_title(p: Seq<char>) -> Seq<char> {
    let e = prefix2_end(p, 0);
    trim_seq(p.subrange(e + 1, name2_end(p, e + 1)))
}

/// The fallback title: underscores become spaces too, any artist-name
/// substring the replacements uncovered is removed, the result is trimmed.
pub open spec fn fallback_title(d: Seq<char>, artist: Seq<char>) -> Seq<char> {
    trim_seq(remove_all(replace_seq(d, '_', ' '), artist))
}

/// The whole fallback chain on a sanitized stem and a resolved artist name.
pub open spec fn spec_title_parse(stem: Seq<char>, artist: Seq<char>) -> (Option<u32>, Seq<char>) {
    let d = spec_parse_dashless(stem, artist);
    let p = spec_parse_dashed(stem, artist);
    if matches_numbered(d) {
        (Some(numbered_track(d)), numbered_title(d))
    } else if matches_dash(p) {
        (None, dash_title(p))
    } else {
        (None, fallback_title(d, artist))
    }
}

fn is_digit(c: char) -> (r: bool)
    ensures
        r == is_digit_char(c),
{
    '0' <= c && c <= '9'
}

fn is_alnum(c: char) -> (r: bool)
    ensures
        r == is_alnum_char(c),
{
    ('0' <= c && c <= '9') || ('a' <= c && c <= 'z') || ('A' <= c && c <= 'Z')
}

fn is_name1(c: char) -> (r: bool)
    ensures
        r == is_name1_char(c),
{
    is_alnum(c) || c == '(' || c == ')' || c == '[' || c == ']' || c == ',' || is_ws(c)
}

fn is_prefix2(c: char) -> (r: bool)
    ensures
        r == is_prefix2_char(c),
{
    ('a' <= c && c <= 'z') || ('A' <= c && c <= 'Z') || c == '&' || c == ' '
}

fn is_name2(c: char) -> (r: bool)
    ensures
        r == is_name2_char(c),
{
    is_alnum(c) || c == ' '
}

fn non_alnum_end_vec(v: &Vec<char>, i: usize) -> (e: usize)
    requires
        i <= v@.len(),
    ensures
        e == non_alnum_end(v@, i as int),
        i <= e <= v@.len(),
{
    let n = v.len();
    let mut e: usize = i;
    while e < n && !is_alnum(v[e])
        invariant
            n == v@.len(),
            i <= e <= n,
            non_alnum_end(v@, i as int) == non_alnum_end(v@, e as int),
        decreases n - e,
    {
        e = e + 1;
    }
    e
}

fn name1_end_vec(v: &Vec<char>, i: usize) -> (e: usize)
    requires
        i <= v@.len(),
    ensures
        e == name1_end(v@, i as int),
        i <= e <= v@.len(),
{
    let n = v.len();
    let mut e: usize = i;
    while e < n && is_name1(v[e])
        invariant
            n == v@.len(),
            i <= e <= n,
            name1_end(v@, i as int) == name1_end(v@, e as int),
        decreases n - e,
    {
        e = e + 1;
    }
    e
}

fn prefix2_end_vec(v: &Vec<char>, i: usize) -> (e: usize)
    requires
        i <= v@.len(),
    ensures
        e == prefix2_end(v@, i as int),
        i <= e <= v@.len(),
{
    let n = v.len();
    let mut e: usize = i;
    while e < n && is_prefix2(v[e])
        invariant
            n == v@.len(),
            i <= e <= n,
            prefix2_end(v@, i as int) == prefix2_end(v@, e as int),
        decreases n - e,
    {
        e = e + 1;
    }
    e
}

fn name2_end_vec(v: &Vec<char>, i: usize) -> (e: usize)
    requires
        i <= v@.len(),
    ensures
        e == name2_end(v@, i as int),
        i <= e <= v@.len(),
{
    let n = v.len();
    let mut e: usize = i;
    while e < n && is_name2(v[e])
        invariant
            n == v@.len(),
            i <= e <= n,
            name2_end(v@, i as int) == name2_end(v@, e as int),
        decreases n - e,
    {
        e = e + 1;
    }
    e
}

/// Run the fallback chain on a filename stem and an artist name, giving
/// the optional track number and the extracted title.
pub fn get_name_and_track_number(filename: &str, artist_name: &str) -> (r: (Option<u32>, String))
    ensures
        ({
            let sp = spec_title_parse(filename@, artist_name@);
            r.0 == sp.0 && r.1@ == sp.1
        }),
{
    let f = chars_vec(filename);
    let a = chars_vec(artist_name);
    let stripped = remove_all_vec(&f, &a);
    let d = trim_vec(&replace_vec(&stripped, '-', ' '));
    let nd = d.len();
    if nd >= 2 && is_digit(d[0]) && is_digit(d[1]) {
        let ns = non_alnum_end_vec(&d, 2);
        if ns < nd {
            let ne = name1_end_vec(&d, ns);
            let title = trim_vec(&subvec(&d, ns, ne));
            let track: u32 = ((d[0] as u32) - 48) * 10 + ((d[1] as u32) - 48);
            return (Some(track), string_from_chars(&title));
        }
    }
    let p = trim_vec(&stripped);
    let np = p.len();
    let pe = prefix2_end_vec(&p, 0);
    if pe < np && p[pe] == '-' {
        let ne = name2_end_vec(&p, pe + 1);
        let title = trim_vec(&subvec(&p, pe + 1, ne));
        return (None, string_from_chars(&title));
    }
    let spaced = replace_vec(&d, '_', ' ');
    let t = trim_vec(&remove_all_vec(&spaced, &a));
    (None, string_from_chars(&t))
}

/// The whitespace-separated tokens of `s`, in order; all tokens are
/// nonempty. `cur` accumulates the token being read.
pub open spec fn ws_tokens_acc(s: Seq<char>, cur: Seq<char>) -> Seq<Seq<char>>
    decreases s.len(),
{
    if s.len() == 0 {
        if cur.len() > 0 {
            seq![cur]
        } else {
            Seq::empty()
        }
    } else if is_ws_char(s[0]) {
        (if cur.len() > 0 {
            seq![cur]
        } else {
            Seq::empty()
        }) + ws_tokens_acc(s.skip(1), Seq::empty())
    } else {
        ws_tokens_acc(s.skip(1), cur.push(s[0]))
    }
}

pub open spec fn ws_tokens(s: Seq<char>) -> Seq<Seq<char>> {
    ws_tokens_acc(s, Seq::empty())
}

/// The tokens joined with a single space between neighbours.
pub open spec fn join_space(ts: Seq<Seq<char>>) -> Seq<char>
    decreases ts.len(),
{
    if ts.len() == 0 {
        Seq::empty()
    } else if ts.len() == 1 {
        ts[0]
    } else {
        ts[0] + seq![' '] + join_space(ts.skip(1))
    }
}

/// The final title normalization: tokens of `s` with any token equal to
/// the artist name dropped, joined single-spaced.
pub open spec fn spec_collapse(s: Seq<char>, artist: Seq<char>) -> Seq<char> {
    join_space(ws_tokens(s).filter(|t: Seq<char>| t != artist))
}

proof fn lemma_join_push(ts: Seq<Seq<char>>, t: Seq<char>)
    ensures
        join_space(ts.push(t)) == if ts.len() == 0 {
            t
        } else {
            join_space(ts) + seq![' '] + t
        },
    decreases ts.len(),
{
    let u = ts.push(t);
    if ts.len() == 0 {
        assert(u.len() == 1);
        assert(u[0] == t);
    } else if ts.len() == 1 {
        assert(u.len() == 2);
        assert(u[0] == ts[0]);
        assert(u.skip(1) =~= seq![t]);
        assert(join_space(u.skip(1)) == t);
    } else {
        assert(u.skip(1) =~= ts.skip(1).push(t));
        lemma_join_push(ts.skip(1), t);
        assert(u[0] == ts[0]);
        assert((ts[0] + seq![' '] + join_space(ts.skip(1))) + seq![' '] + t =~= ts[0] + seq![' ']
            + (join_space(ts.skip(1)) + seq![' '] + t));
    }
}

proof fn lemma_filter_push(ts: Seq<Seq<char>>, t: Seq<char>, pred: spec_fn(Seq<char>) -> bool)
    ensures
        ts.push(t).filter(pred) == if pred(t) {
            ts.filter(pred).push(t)
        } else {
            ts.filter(pred)
        },
{
    reveal(Seq::filter);
    assert(ts.push(t).drop_last() =~= ts);
    assert(ts.push(t).last() == t);
    if pred(t) {
        assert(ts.filter(pred).push(t) =~= ts.filter(pred) + seq![t]);
    }
}

/// Collapse a title to single-spaced tokens, dropping any token equal to
/// the artist name.
#[verifier::loop_isolation(false)]
pub fn collapse_title(title: &str, artist: &str) -> (r: String)
    ensures
        r@ == spec_collapse(title@, artist@),
{
    let s = chars_vec(title);
    let a = chars_vec(artist);
    let n = s.len();
    let ghost pred = |t: Seq<char>| t != artist@;
    let mut out: Vec<char> = Vec::new();
    let mut cur: Vec<char> = Vec::new();
    let mut any: bool = false;
    let ghost mut toks: Seq<Seq<char>> = Seq::empty();
    let mut i: usize = 0;
    proof {
        assert(s@.skip(0) =~= s@);
        assert(toks.filter(pred) =~= Seq::<Seq<char>>::empty());
    }
    while i < n
        invariant
            n == s@.len(),
            i <= n,
            a@ == artist@,
            ws_tokens(s@) == toks + ws_tokens_acc(s@.skip(i as int), cur@),
            out@ == join_space(toks.filter(pred)),
            any == (toks.filter(pred).len() > 0),
            forall|k: int| 0 <= k < toks.len() ==> #[trigger] toks[k].len() > 0,
        decreases n - i,
    {
        let c = s[i];
        proof {
            let t = s@.skip(i as int);
            assert(t[0] == s@[i as int]);
            assert(t.skip(1) =~= s@.skip(i as int + 1));
        }
        if is_ws(c) {
            let ghost toks0 = toks;
            let ghost cur0 = cur@;
            if cur.len() > 0 {
                proof {
                    toks = toks0.push(cur0);
                    lemma_filter_push(toks0, cur0, pred);
                }
                if !chars_eq(&cur, &a) {
                    proof {
                        lemma_join_push(toks0.filter(pred), cur0);
                    }
                    if any {
                        out.push(' ');
                    }
                    let mut j: usize = 0;
                    let m = cur.len();
                    let ghost out0 = out@;
                    while j < m
                        invariant
                            m == cur@.len(),
                            cur@ == cur0,
                            j <= m,
                            out@ == out0 + cur@.subrange(0, j as int),
                        decreases m - j,
                    {
                        out.push(cur[j]);
                        j = j + 1;
                        proof {
                            assert(out@ =~= out0 + cur@.subrange(0, j as int));
                        }
                    }
                    proof {
                        assert(out0 + cur0.subrange(0, m as int) =~= out0 + cur0);
                        if toks0.filter(pred).len() == 0 {
                            assert(out0 =~= Seq::<char>::empty());
                            assert(out@ =~= cur0);
                        } else {
                            assert(out@ =~= join_space(toks0.filter(pred)) + seq![' '] + cur0);
                        }
                    }
                    any = true;
                }
                cur = Vec::new();
            }
            proof {
                let rest = ws_tokens_acc(s@.skip(i as int + 1), Seq::<char>::empty());
                if cur0.len() > 0 {
                    assert(ws_tokens_acc(s@.skip(i as int), cur0) == seq![cur0] + rest);
                    assert(toks0 + (seq![cur0] + rest) =~~= (toks0 + seq![cur0]) + rest);
                    assert(toks0.push(cur0) =~~= toks0 + seq![cur0]);
                } else {
                    assert(cur0 =~= Seq::<char>::empty());
                    assert(ws_tokens_acc(s@.skip(i as int), cur0) == Seq::<Seq<char>>::empty()
                        + rest);
                    assert(toks0 + (Seq::<Seq<char>>::empty() + rest) =~~= toks0 + rest);
                }
            }
        } else {
            cur.push(c);
        }
        i = i + 1;
    }
    proof {
        assert(s@.skip(n as int) =~= Seq::<char>::empty());
    }
    if cur.len() > 0 {
        let ghost toks0 = toks;
        let ghost cur0 = cur@;
        proof {
            toks = toks0.push(cur0);
            lemma_filter_push(toks0, cur0, pred);
        }
        if !chars_eq(&cur, &a) {
            proof {
                lemma_join_push(toks0.filter(pred), cur0);
            }
            if any {
                out.push(' ');
            }
            let mut j: usize = 0;
            let m = cur.len();
            let ghost out0 = out@;
            while j < m
                invariant
                    m == cur@.len(),
                    cur@ == cur0,
                    j <= m,
                    out@ == out0 + cur@.subrange(0, j as int),
                decreases m - j,
            {
                out.push(cur[j]);
                j = j + 1;
                proof {
                    assert(out@ =~= out0 + cur@.subrange(0, j as int));
                }
            }
            proof {
                assert(out0 + cur0.subrange(0, m as int) =~= out0 + cur0);
                if toks0.filter(pred).len() == 0 {
                    assert(out0 =~= Seq::<char>::empty());
                    assert(out@ =~= cur0);
                } else {
                    assert(out@ =~= join_space(toks0.filter(pred)) + seq![' '] + cur0);
                }
            }
        }
        proof {
            assert(ws_tokens_acc(Seq::<char>::empty(), cur0) == seq![cur0]);
            assert(toks0 + seq![cur0] =~~= toks0.push(cur0));
            assert(ws_tokens(s@) == toks);
        }
    } else {
        proof {
            assert(ws_tokens_acc(Seq::<char>::empty(), cur@) == Seq::<Seq<char>>::empty());
            assert(toks + Seq::<Seq<char>>::empty() =~~= toks);
            assert(ws_tokens(s@) == toks);
        }
    }
    string_from_chars(&out)
}

} // verus!
