//! Tag inference engine: from a job descriptor and the file's path it
//! computes the artist, album and title values to write, honoring the
//! per-field override modes, and models how applying those values changes
//! a tag container. The two nearest path components above the file supply
//! the album (parent) and artist (grandparent) names, `unknown` standing in
//! for a missing ancestor; the comment field is always cleared.

use vstd::prelude::*;

use crate::conf::{Change, Conf};
use crate::defaults::{sentinel_seq, sentinel_vec};
use crate::paths::{
    ancestor_sources, file_stem_chars, has_parent, spec_album_source, spec_artist_source,
    spec_file_stem, spec_has_parent,
};
use crate::sanitize::{clean_chars, spec_clean};
use crate::text::{append_chars, chars_eq, chars_vec, string_from_chars};
use crate::title::{collapse_title, get_name_and_track_number, spec_collapse, spec_title_parse};

verus! {

/// Why inference can fail before any tag is touched.
#[derive(Clone, Copy, Debug, PartialEq, Eq, Structural)]
pub enum TagError {
    /// The path has no parent directory to infer from.
    NoParent,
}

/// The values to write: `None` leaves a field untouched. Computed fresh per
/// file, applied, then discarded.
#[derive(Clone, Debug, PartialEq)]
pub struct InferredTags {
    pub artist: Option<String>,
    pub album: Option<String>,
    pub title: Option<String>,
    pub track: Option<u32>,
}

/// The artist name resolved from the path: the sanitized grandparent
/// directory name. It steers album disambiguation and title stripping
/// whatever the artist mode says.
pub open spec fn spec_resolved_artist(path: Seq<char>) -> Seq<char> {
    spec_clean(spec_artist_source(path))
}

/// The album value in auto mode: the sanitized parent name, disambiguated
/// with the resolved artist where it equals the sentinel album name.
pub open spec fn spec_album_auto(path: Seq<char>) -> Seq<char> {
    let a = spec_clean(spec_album_source(path));
    if a == sentinel_seq() {
        a + seq![' ', '-', ' '] + spec_resolved_artist(path)
    } else {
        a
    }
}

/// The title parse in auto mode: the fallback chain on the sanitized stem,
/// the title collapsed to single-spaced tokens without the artist name.
pub open spec fn spec_title_auto(path: Seq<char>) -> (Option<u32>, Seq<char>) {
    let artist = spec_resolved_artist(path);
    let parsed = spec_title_parse(spec_clean(spec_file_stem(path)), artist);
    (parsed.0, spec_collapse(parsed.1, artist))
}

/// The artist value the engine writes, by mode.
pub open spec fn spec_inferred_artist(c: Conf) -> Option<Seq<char>> {
    match c.artist {
        Change::Disabled => None,
        Change::Auto => Some(spec_resolved_artist(c.file_path@)),
        Change::Fixed(s) => Some(s@),
    }
}

/// The album value the engine writes, by mode.
pub open spec fn spec_inferred_album(c: Conf) -> Option<Seq<char>> {
    match c.album {
        Change::Disabled => None,
        Change::Auto => Some(spec_album_auto(c.file_path@)),
        Change::Fixed(s) => Some(s@),
    }
}

/// The title value the engine writes, by mode.
pub open spec fn spec_inferred_title(c: Conf) -> Option<Seq<char>> {
    match c.title {
        Change::Disabled => None,
        Change::Auto => Some(spec_title_auto(c.file_path@).1),
        Change::Fixed(s) => Some(s@),
    }
}

/// The track number the engine writes: only title auto mode produces one.
pub open spec fn spec_inferred_track(c: Conf) -> Option<u32> {
    match c.title {
        Change::Auto => spec_title_auto(c.file_path@).0,
        _ => None,
    }
}

/// Compute the tag values to write for the descriptor's path. Fails, with
/// no other effect, exactly where the path has no parent directory.
pub fn process_tags(conf: &Conf) -> (r: Result<InferredTags, TagError>)
    ensures
        r is Ok <==> spec_has_parent(conf.file_path@),
        r matches Err(e) ==> e == TagError::NoParent,
        r matches Ok(p) ==> {
            &&& p.artist.deep_view() == spec_inferred_artist(*conf)
            &&& p.album.deep_view() == spec_inferred_album(*conf)
            &&& p.title.deep_view() == spec_inferred_title(*conf)
            &&& p.track == spec_inferred_track(*conf)
        },
{
    if !has_parent(conf.file_path.as_str()) {
        return Err(TagError::NoParent);
    }
    let (album_src, artist_src) = ancestor_sources(conf.file_path.as_str());
    let artist_chars = clean_chars(&artist_src);

    let artist: Option<String> = match &conf.artist {
        Change::Disabled => None,
        Change::Auto => Some(string_from_chars(&artist_chars)),
        Change::Fixed(s) => Some(s.clone()),
    };

    let album: Option<String> = match &conf.album {
        Change::Disabled => None,
        Change::Auto => {
            let a = clean_chars(&album_src);
            if chars_eq(&a, &sentinel_vec()) {
                let mut full = a;
                full.push(' ');
                full.push('-');
                full.push(' ');
                append_chars(&mut full, &artist_chars);
                proof {
                    assert(full@ =~= spec_clean(spec_album_source(conf.file_path@)) + seq![
                        ' ',
                        '-',
                        ' ',
                    ] + spec_resolved_artist(conf.file_path@));
                }
                Some(string_from_chars(&full))
            } else {
                Some(string_from_chars(&a))
            }
        },
        Change::Fixed(s) => Some(s.clone()),
    };

    let (track, title): (Option<u32>, Option<String>) = match &conf.title {
        Change::Disabled => (None, None),
        Change::Auto => {
            let path_chars = chars_vec(conf.file_path.as_str());
            let stem = clean_chars(&file_stem_chars(&path_chars));
            let stem_str = string_from_chars(&stem);
            let artist_str = string_from_chars(&artist_chars);
            let (tr, t) = get_name_and_track_number(stem_str.as_str(), artist_str.as_str());
            let collapsed = collapse_title(t.as_str(), artist_str.as_str());
            (tr, Some(collapsed))
        },
        Change::Fixed(s) => (None, Some(s.clone())),
    };

    Ok(InferredTags { artist, album, title, track })
}

/// A tag container's readable fields, as plain values.
#[derive(Clone, Debug, PartialEq)]
pub struct TagState {
    pub artist: Option<String>,
    pub album: Option<String>,
    pub title: Option<String>,
    pub track: Option<u32>,
    pub comment: Option<String>,
}

/// How one planned field lands: a planned value replaces, an absent plan
/// keeps what was there.
pub open spec fn spec_apply_field(prior: Option<Seq<char>>, planned: Option<Seq<char>>) -> Option<
    Seq<char>,
> {
    match planned {
        Some(x) => Some(x),
        None => prior,
    }
}

fn clone_opt_string(o: &Option<String>) -> (r: Option<String>)
    ensures
        r.deep_view() == o.deep_view(),
{
    match o {
        Some(s) => Some(s.clone()),
        None => None,
    }
}

/// Apply an inferred tag set to a tag container's state: planned fields are
/// replaced, unplanned ones kept, the comment cleared unconditionally.
pub fn apply_tags(state: &TagState, plan: &InferredTags) -> (r: TagState)
    ensures
        r.artist.deep_view() == spec_apply_field(state.artist.deep_view(), plan.artist.deep_view()),
        r.album.deep_view() == spec_apply_field(state.album.deep_view(), plan.album.deep_view()),
        r.title.deep_view() == spec_apply_field(state.title.deep_view(), plan.title.deep_view()),
        r.track == (if plan.track is Some {
            plan.track
        } else {
            state.track
        }),
        r.comment is None,
{
    let artist = match &plan.artist {
        Some(s) => Some(s.clone()),
        None => clone_opt_string(&state.artist),
    };
    let album = match &plan.album {
        Some(s) => Some(s.clone()),
        None => clone_opt_string(&state.album),
    };
    let title = match &plan.title {
        Some(s) => Some(s.clone()),
        None => clone_opt_string(&state.title),
    };
    let track = match &plan.track {
        Some(t) => Some(*t),
        None => state.track,
    };
    TagState { artist, album, title, track, comment: None }
}

/// Law: with title mode auto or fixed the engine always plans a title, and
/// applying a plan whose title value is nonempty leaves the tag with that
/// nonempty title, whatever was there before. (A planned title can be
/// empty — a fixed override of the empty string, or a stem the sanitizer
/// reduces to nothing — and then the written title is empty too.)
pub proof fn lemma_retagged_title_nonempty(c: Conf, prior: Option<Seq<char>>)
    requires
        !(c.title is Disabled),
        spec_inferred_title(c) matches Some(t) && t.len() > 0,
    ensures
        spec_apply_field(prior, spec_inferred_title(c)) matches Some(t) && t.len() > 0,
{
}

} // verus!
