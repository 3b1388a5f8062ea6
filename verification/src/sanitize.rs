//! Name sanitizer: normalizes a raw filename or directory fragment into a
//! clean metadata token. In order: `.` becomes `-`, the bitrate noise
//! markers `128`, `192` and `320` and the empty bracket pairs `()` and `[]`
//! are removed, whitespace is trimmed from both ends, and the result is
//! ASCII-lowercased. The function is pure and total; the empty string is a
//! valid output.

use vstd::prelude::*;

use crate::text::{
    chars_vec, is_ws_char, lower_char, lower_seq, lower_vec, occurs, occurs_at, remove_all,
    remove_all_vec, replace_seq, replace_vec, string_from_chars, trim_end_seq, trim_seq,
    trim_start_seq, trim_vec,
};

verus! {

pub open spec fn pat_128() -> Seq<char> {
    seq!['1', '2', '8']
}

pub open spec fn pat_192() -> Seq<char> {
    seq!['1', '9', '2']
}

pub open spec fn pat_320() -> Seq<char> {
    seq!['3', '2', '0']
}

pub open spec fn pat_parens() -> Seq<char> {
    seq!['(', ')']
}

pub open spec fn pat_brackets() -> Seq<char> {
    seq!['[', ']']
}

/// The sanitizer on character sequences: dots to dashes, noise markers and
/// empty bracket pairs removed, trimmed, lowercased.
pub open spec fn spec_clean(s: Seq<char>) -> Seq<char> {
    lower_seq(
        trim_seq(
            remove_all(
                remove_all(
                    remove_all(
                        remove_all(remove_all(replace_seq(s, '.', '-'), pat_128()), pat_192()),
                        pat_320(),
                    ),
                    pat_parens(),
                ),
                pat_brackets(),
            ),
        ),
    )
}

fn pat_vec_128() -> (r: Vec<char>)
    ensures
        r@ == pat_128(),
{
    let mut v: Vec<char> = Vec::new();
    v.push('1');
    v.push('2');
    v.push('8');
    proof {
        assert(v@ =~= pat_128());
    }
    v
}

fn pat_vec_192() -> (r: Vec<char>)
    ensures
        r@ == pat_192(),
{
    let mut v: Vec<char> = Vec::new();
    v.push('1');
    v.push('9');
    v.push('2');
    proof {
        assert(v@ =~= pat_192());
    }
    v
}

fn pat_vec_320() -> (r: Vec<char>)
    ensures
        r@ == pat_320(),
{
    let mut v: Vec<char> = Vec::new();
    v.push('3');
    v.push('2');
    v.push('0');
    proof {
        assert(v@ =~= pat_320());
    }
    v
}

fn pat_vec_parens() -> (r: Vec<char>)
    ensures
        r@ == pat_parens(),
{
    let mut v: Vec<char> = Vec::new();
    v.push('(');
    v.push(')');
    proof {
        assert(v@ =~= pat_parens());
    }
    v
}

fn pat_vec_brackets() -> (r: Vec<char>)
    ensures
        r@ == pat_brackets(),
{
    let mut v: Vec<char> = Vec::new();
    v.push('[');
    v.push(']');
    proof {
        assert(v@ =~= pat_brackets());
    }
    v
}

/// Sanitize a fragment held in a character vector.
pub fn clean_chars(v: &Vec<char>) -> (r: Vec<char>)
    ensures
        r@ == spec_clean(v@),
{
    let step1 = replace_vec(v, '.', '-');
    let step2 = remove_all_vec(&step1, &pat_vec_128());
    let step3 = remove_all_vec(&step2, &pat_vec_192());
    let step4 = remove_all_vec(&step3, &pat_vec_320());
    let step5 = remove_all_vec(&step4, &pat_vec_parens());
    let step6 = remove_all_vec(&step5, &pat_vec_brackets());
    let step7 = trim_vec(&step6);
    lower_vec(&step7)
}

/// Sanitize a raw filename or directory fragment.
pub fn clean(s: &str) -> (r: String)
    ensures
        r@ == spec_clean(s@),
{
    let v = chars_vec(s);
    let out = clean_chars(&v);
    string_from_chars(&out)
}

/// No character of `s` equals `c`.
pub open spec fn no_char(s: Seq<char>, c: char) -> bool {
    forall|i: int| 0 <= i < s.len() ==> s[i] != c
}

/// `s` carries no leading or trailing whitespace.
pub open spec fn trimmed(s: Seq<char>) -> bool {
    s.len() > 0 ==> !is_ws_char(s[0]) && !is_ws_char(s[s.len() - 1])
}

proof fn lemma_replace_id(s: Seq<char>, a: char, b: char)
    requires
        no_char(s, a),
    ensures
        replace_seq(s, a, b) == s,
{
    assert(replace_seq(s, a, b) =~= s);
}

proof fn lemma_remove_all_id(s: Seq<char>, p: Seq<char>)
    requires
        p.len() > 0,
        !occurs(s, p),
    ensures
        remove_all(s, p) == s,
    decreases s.len(),
{
    if s.len() < p.len() {
    } else {
        assert(!occurs_at(s, p, 0));
        assert(s.subrange(0, p.len() as int) != p);
        assert(!occurs(s.skip(1), p)) by {
            if occurs(s.skip(1), p) {
                let i = choose|i: int| occurs_at(s.skip(1), p, i);
                assert(s.skip(1).subrange(i, i + p.len() as int) =~= s.subrange(
                    i + 1,
                    i + 1 + p.len() as int,
                ));
                assert(occurs_at(s, p, i + 1));
            }
        }
        lemma_remove_all_id(s.skip(1), p);
        assert(seq![s[0]] + s.skip(1) =~= s);
    }
}

proof fn lemma_remove_all_no_char(s: Seq<char>, p: Seq<char>, c: char)
    requires
        no_char(s, c),
    ensures
        no_char(remove_all(s, p), c),
    decreases s.len(),
{
    if p.len() == 0 || s.len() < p.len() {
    } else if s.subrange(0, p.len() as int) == p {
        assert(no_char(s.skip(p.len() as int), c));
        lemma_remove_all_no_char(s.skip(p.len() as int), p, c);
    } else {
        assert(no_char(s.skip(1), c));
        lemma_remove_all_no_char(s.skip(1), p, c);
    }
}

proof fn lemma_trim_start_facts(s: Seq<char>)
    ensures
        trim_start_seq(s).len() > 0 ==> !is_ws_char(trim_start_seq(s)[0]),
        forall|c: char| no_char(s, c) ==> no_char(trim_start_seq(s), c),
        trim_start_seq(s).len() > 0 ==> trim_start_seq(s)[trim_start_seq(s).len() - 1] == s[s.len()
            - 1],
    decreases s.len(),
{
    if s.len() > 0 && is_ws_char(s[0]) {
        lemma_trim_start_facts(s.drop_first());
        assert forall|c: char| no_char(s, c) implies no_char(trim_start_seq(s), c) by {
            assert(no_char(s.drop_first(), c));
        }
    }
}

proof fn lemma_trim_end_facts(s: Seq<char>)
    ensures
        trim_end_seq(s).len() > 0 ==> !is_ws_char(trim_end_seq(s)[trim_end_seq(s).len() - 1]),
        forall|c: char| no_char(s, c) ==> no_char(trim_end_seq(s), c),
        trim_end_seq(s).len() > 0 ==> trim_end_seq(s)[0] == s[0],
    decreases s.len(),
{
    if s.len() > 0 && is_ws_char(s.last()) {
        lemma_trim_end_facts(s.drop_last());
        assert forall|c: char| no_char(s, c) implies no_char(trim_end_seq(s), c) by {
            assert(no_char(s.drop_last(), c));
        }
    }
}

proof fn lemma_trim_facts(s: Seq<char>)
    ensures
        trimmed(trim_seq(s)),
        forall|c: char| no_char(s, c) ==> no_char(trim_seq(s), c),
{
    lemma_trim_start_facts(s);
    lemma_trim_end_facts(trim_start_seq(s));
}

proof fn lemma_trim_id(s: Seq<char>)
    requires
        trimmed(s),
    ensures
        trim_seq(s) == s,
{
    assert(trim_start_seq(s) == s);
    assert(trim_end_seq(s) == s);
}

proof fn lemma_lower_ws(c: char)
    ensures
        is_ws_char(lower_char(c)) == is_ws_char(c),
        lower_char(c) == '.' ==> c == '.',
{
    if 'A' <= c && c <= 'Z' {
        assert(97 <= lower_char(c) as u32 <= 122);
    }
}

proof fn lemma_lower_idem(s: Seq<char>)
    ensures
        lower_seq(lower_seq(s)) == lower_seq(s),
{
    assert forall|i: int| 0 <= i < s.len() implies lower_char(lower_char(s[i])) == lower_char(
        s[i],
    ) by {
        if 'A' <= s[i] && s[i] <= 'Z' {
            assert(97 <= lower_char(s[i]) as u32 <= 122);
        }
    }
    assert(lower_seq(lower_seq(s)) =~= lower_seq(s));
}

proof fn lemma_clean_shape(s: Seq<char>)
    ensures
        no_char(spec_clean(s), '.'),
        trimmed(spec_clean(s)),
        lower_seq(spec_clean(s)) == spec_clean(s),
{
    let a = replace_seq(s, '.', '-');
    assert(no_char(a, '.'));
    lemma_remove_all_no_char(a, pat_128(), '.');
    let b = remove_all(a, pat_128());
    lemma_remove_all_no_char(b, pat_192(), '.');
    let c = remove_all(b, pat_192());
    lemma_remove_all_no_char(c, pat_320(), '.');
    let d = remove_all(c, pat_320());
    lemma_remove_all_no_char(d, pat_parens(), '.');
    let e = remove_all(d, pat_parens());
    lemma_remove_all_no_char(e, pat_brackets(), '.');
    let f = remove_all(e, pat_brackets());
    lemma_trim_facts(f);
    let g = trim_seq(f);
    assert(no_char(g, '.'));
    assert forall|i: int| 0 <= i < g.len() implies lower_seq(g)[i] != '.' by {
        lemma_lower_ws(g[i]);
    }
    assert(no_char(lower_seq(g), '.'));
    if g.len() > 0 {
        lemma_lower_ws(g[0]);
        lemma_lower_ws(g[g.len() - 1]);
    }
    assert(trimmed(lower_seq(g)));
    lemma_lower_idem(g);
}

proof fn lemma_remove_all_len(s: Seq<char>, p: Seq<char>)
    ensures
        remove_all(s, p).len() <= s.len(),
    decreases s.len(),
{
    if p.len() == 0 || s.len() < p.len() {
    } else if s.subrange(0, p.len() as int) == p {
        lemma_remove_all_len(s.skip(p.len() as int), p);
    } else {
        lemma_remove_all_len(s.skip(1), p);
    }
}

proof fn lemma_remove_all_shortens(s: Seq<char>, p: Seq<char>)
    requires
        p.len() > 0,
        occurs(s, p),
    ensures
        remove_all(s, p).len() < s.len(),
    decreases s.len(),
{
    let i = choose|i: int| occurs_at(s, p, i);
    assert(s.len() >= p.len());
    if s.subrange(0, p.len() as int) == p {
        lemma_remove_all_len(s.skip(p.len() as int), p);
    } else {
        assert(i != 0);
        assert(s.skip(1).subrange(i - 1, i - 1 + p.len() as int) =~= s.subrange(
            i,
            i + p.len() as int,
        ));
        assert(occurs_at(s.skip(1), p, i - 1));
        lemma_remove_all_shortens(s.skip(1), p);
    }
}

proof fn lemma_trim_len(s: Seq<char>)
    ensures
        trim_seq(s).len() <= s.len(),
{
    lemma_trim_start_len(s);
    lemma_trim_end_len(trim_start_seq(s));
}

proof fn lemma_trim_start_len(s: Seq<char>)
    ensures
        trim_start_seq(s).len() <= s.len(),
    decreases s.len(),
{
    if s.len() > 0 && is_ws_char(s[0]) {
        lemma_trim_start_len(s.drop_first());
    }
}

proof fn lemma_trim_end_len(s: Seq<char>)
    ensures
        trim_end_seq(s).len() <= s.len(),
    decreases s.len(),
{
    if s.len() > 0 && is_ws_char(s.last()) {
        lemma_trim_end_len(s.drop_last());
    }
}

/// Law (converse of the idempotence condition): where the sanitized form
/// still holds a noise marker or an empty bracket pair, a second pass
/// strictly shortens it, so the sanitizer is not idempotent there. The
/// condition below is therefore exactly the set of inputs the idempotence
/// law leaves out.
pub proof fn lemma_clean_second_pass_shrinks(s: Seq<char>)
    requires
        occurs(spec_clean(s), pat_128()) || occurs(spec_clean(s), pat_192()) || occurs(
            spec_clean(s),
            pat_320(),
        ) || occurs(spec_clean(s), pat_parens()) || occurs(spec_clean(s), pat_brackets()),
    ensures
        spec_clean(spec_clean(s)).len() < spec_clean(s).len(),
{
    let r = spec_clean(s);
    lemma_clean_shape(s);
    lemma_replace_id(r, '.', '-');
    let b1 = remove_all(r, pat_128());
    let b2 = remove_all(b1, pat_192());
    let b3 = remove_all(b2, pat_320());
    let b4 = remove_all(b3, pat_parens());
    let b5 = remove_all(b4, pat_brackets());
    lemma_remove_all_len(r, pat_128());
    lemma_remove_all_len(b1, pat_192());
    lemma_remove_all_len(b2, pat_320());
    lemma_remove_all_len(b3, pat_parens());
    lemma_remove_all_len(b4, pat_brackets());
    if occurs(r, pat_128()) {
        lemma_remove_all_shortens(r, pat_128());
    } else {
        lemma_remove_all_id(r, pat_128());
        if occurs(b1, pat_192()) {
            lemma_remove_all_shortens(b1, pat_192());
        } else {
            lemma_remove_all_id(b1, pat_192());
            if occurs(b2, pat_320()) {
                lemma_remove_all_shortens(b2, pat_320());
            } else {
                lemma_remove_all_id(b2, pat_320());
                if occurs(b3, pat_parens()) {
                    lemma_remove_all_shortens(b3, pat_parens());
                } else {
                    lemma_remove_all_id(b3, pat_parens());
                    lemma_remove_all_shortens(b4, pat_brackets());
                }
            }
        }
    }
    assert(b5.len() < r.len());
    lemma_trim_len(b5);
}

/// Law: the sanitizer is idempotent, on every input whose sanitized form
/// carries no leftover noise marker or empty bracket pair (removal can
/// splice such a marker together out of its neighbours; on those inputs a
/// second pass removes it too, and the outputs differ).
pub proof fn lemma_clean_idempotent(s: Seq<char>)
    requires
        !occurs(spec_clean(s), pat_128()),
        !occurs(spec_clean(s), pat_192()),
        !occurs(spec_clean(s), pat_320()),
        !occurs(spec_clean(s), pat_parens()),
        !occurs(spec_clean(s), pat_brackets()),
    ensures
        spec_clean(spec_clean(s)) == spec_clean(s),
{
    let r = spec_clean(s);
    lemma_clean_shape(s);
    lemma_replace_id(r, '.', '-');
    lemma_remove_all_id(r, pat_128());
    lemma_remove_all_id(r, pat_192());
    lemma_remove_all_id(r, pat_320());
    lemma_remove_all_id(r, pat_parens());
    lemma_remove_all_id(r, pat_brackets());
    lemma_trim_id(r);
}

} // verus!
