//! The documented default constants: the sentinel album name used where no
//! album can be told apart from the path.

use vstd::prelude::*;

verus! {

/// The sentinel album name for files that belong to no album.
pub open spec fn sentinel_seq() -> Seq<char> {
    seq!['s', 'i', 'n', 'g', 'l', 'e', ' ', 's', 'o', 'n', 'g', 's']
}

pub fn sentinel_vec() -> (r: Vec<char>)
    ensures
        r@ == sentinel_seq(),
{
    let mut v: Vec<char> = Vec::new();
    v.push('s');
    v.push('i');
    v.push('n');
    v.push('g');
    v.push('l');
    v.push('e');
    v.push(' ');
    v.push('s');
    v.push('o');
    v.push('n');
    v.push('g');
    v.push('s');
    proof {
        assert(v@ =~= sentinel_seq());
    }
    v
}

/// The sentinel album name as a string.
pub fn default_album_name() -> (r: String)
    ensures
        r@ == sentinel_seq(),
{
    crate::text::string_from_chars(&sentinel_vec())
}

} // verus!
