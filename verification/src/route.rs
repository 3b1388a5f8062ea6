//! Traversal decisions: classify a directory entry from its filesystem
//! facts and its name, and decide what the engine does with it, in retag
//! mode and in organize-by-existing-tag mode. The driver performs the
//! decided action and recurses where told to.

use vstd::prelude::*;

use crate::defaults::{sentinel_seq, sentinel_vec};
use crate::paths::{
    is_archive_file, is_audio_file, last_index_of, spec_file_name, spec_is_archive_file,
    spec_is_audio_file, spec_is_zip_file,
};
use crate::text::{append_chars, chars_vec, string_from_chars};

verus! {

/// What a filesystem path is, judged from its type facts and extension.
#[derive(Clone, Copy, Debug, PartialEq, Eq, Structural)]
pub enum PathKind {
    Directory,
    AudioFile,
    ArchiveFile,
    Other,
}

pub open spec fn spec_classify(is_dir: bool, is_file: bool, s: Seq<char>) -> PathKind {
    if is_dir {
        PathKind::Directory
    } else if is_file && spec_is_archive_file(s) {
        PathKind::ArchiveFile
    } else if is_file && spec_is_audio_file(s) {
        PathKind::AudioFile
    } else {
        PathKind::Other
    }
}

/// Classify a path from the environment's type facts and its name. Pure:
/// no content sniffing, no filesystem access.
pub fn classify_path(is_dir: bool, is_file: bool, path: &str) -> (k: PathKind)
    ensures
        k == spec_classify(is_dir, is_file, path@),
{
    if is_dir {
        PathKind::Directory
    } else if is_file && is_archive_file(path) {
        PathKind::ArchiveFile
    } else if is_file && is_audio_file(path) {
        PathKind::AudioFile
    } else {
        PathKind::Other
    }
}

/// What the retag traversal does with one entry.
#[derive(Clone, Copy, Debug, PartialEq, Eq, Structural)]
pub enum Action {
    /// Recurse into the directory, one derived job per entry.
    RecurseInto,
    /// Expand the archive and recurse into the album directory.
    ExpandArchive,
    /// Report the unsupported archive format and continue; not an error.
    WarnUnsupportedArchive,
    /// Infer and write tags, with the repair loop on failure.
    RetagAudio,
    /// Delete the unrecognized file, as policy permits.
    DeleteFile,
    /// Leave the entry untouched.
    LeaveUntouched,
}

pub open spec fn spec_plan_entry(
    is_dir: bool,
    is_file: bool,
    s: Seq<char>,
    remove_other_file: bool,
) -> Action {
    if is_dir {
        Action::RecurseInto
    } else if is_file {
        if spec_is_archive_file(s) {
            if spec_is_zip_file(s) {
                Action::ExpandArchive
            } else {
                Action::WarnUnsupportedArchive
            }
        } else if spec_is_audio_file(s) {
            Action::RetagAudio
        } else if remove_other_file {
            Action::DeleteFile
        } else {
            Action::LeaveUntouched
        }
    } else {
        Action::LeaveUntouched
    }
}

/// Decide what the retag traversal does with one entry: directories fan
/// out, supported archives expand, audio files are retagged, and anything
/// else is deleted or left alone as the policy flag says.
pub fn plan_entry(is_dir: bool, is_file: bool, path: &str, remove_other_file: bool) -> (a: Action)
    ensures
        a == spec_plan_entry(is_dir, is_file, path@, remove_other_file),
{
    if is_dir {
        Action::RecurseInto
    } else if is_file {
        if is_archive_file(path) {
            match crate::paths::archive_type(path) {
                crate::paths::ArchiveType::Zip => Action::ExpandArchive,
                crate::paths::ArchiveType::Unsupported => Action::WarnUnsupportedArchive,
            }
        } else if is_audio_file(path) {
            Action::RetagAudio
        } else if remove_other_file {
            Action::DeleteFile
        } else {
            Action::LeaveUntouched
        }
    } else {
        Action::LeaveUntouched
    }
}

/// What the organize-by-existing-tag traversal does with one entry.
#[derive(Clone, Copy, Debug, PartialEq, Eq, Structural)]
pub enum OrganizeAction {
    /// Recurse into the directory.
    RecurseInto,
    /// Move the audio file into its album's subdirectory.
    MoveToAlbum,
    /// Neither a directory nor a supported audio file: report and stop
    /// this branch.
    Unsupported,
}

pub open spec fn spec_plan_organize_entry(is_dir: bool, is_file: bool, s: Seq<char>) -> OrganizeAction {
    if is_dir {
        OrganizeAction::RecurseInto
    } else if is_file && spec_is_audio_file(s) {
        OrganizeAction::MoveToAlbum
    } else {
        OrganizeAction::Unsupported
    }
}

/// Decide what the organize traversal does with one entry.
pub fn plan_organize_entry(is_dir: bool, is_file: bool, path: &str) -> (a: OrganizeAction)
    ensures
        a == spec_plan_organize_entry(is_dir, is_file, path@),
{
    if is_dir {
        OrganizeAction::RecurseInto
    } else if is_file && is_audio_file(path) {
        OrganizeAction::MoveToAlbum
    } else {
        OrganizeAction::Unsupported
    }
}

/// The album directory name the organize mode files a track under: the
/// track's own album tag, or the sentinel album name where it has none.
pub fn organize_album_name(album_tag: &Option<String>) -> (r: String)
    ensures
        r@ == match album_tag {
            Some(a) => a@,
            None => sentinel_seq(),
        },
{
    match album_tag {
        Some(a) => a.clone(),
        None => string_from_chars(&sentinel_vec()),
    }
}

/// `dir/name` as one path string.
pub fn join_path(dir: &str, name: &str) -> (r: String)
    ensures
        r@ == dir@ + seq!['/'] + name@,
{
    let mut v = chars_vec(dir);
    v.push('/');
    append_chars(&mut v, &chars_vec(name));
    proof {
        assert(v@ =~= dir@ + seq!['/'] + name@);
    }
    string_from_chars(&v)
}

/// Where the flatten-to-grandparent policy renames a retagged file: the
/// file's name under its grandparent directory. `None` where the path is
/// too shallow to have one.
pub open spec fn spec_move_target(s: Seq<char>) -> Option<Seq<char>> {
    let ls = last_index_of(s, '/');
    if ls < 0 {
        None
    } else {
        let p = s.subrange(0, ls);
        if p.len() == 0 {
            None
        } else {
            let ls2 = last_index_of(p, '/');
            if ls2 >= 0 {
                Some(p.subrange(0, ls2 + 1) + spec_file_name(s))
            } else {
                Some(spec_file_name(s))
            }
        }
    }
}

/// Compute the grandparent-level path the file moves to.
pub fn parent_move_target(path: &str) -> (r: Option<String>)
    ensures
        match r {
            Some(t) => spec_move_target(path@) matches Some(x) && t@ == x,
            None => spec_move_target(path@) is None,
        },
{
    let v = chars_vec(path);
    match crate::paths::last_index_of_vec(&v, '/') {
        None => None,
        Some(ls) => {
            let p = crate::paths::subvec(&v, 0, ls);
            if p.len() == 0 {
                return None;
            }
            let name = crate::paths::file_name_chars(&v);
            match crate::paths::last_index_of_vec(&p, '/') {
                Some(ls2) => {
                    let mut out = crate::paths::subvec(&p, 0, ls2 + 1);
                    append_chars(&mut out, &name);
                    proof {
                        assert(out@ =~= v@.subrange(0, ls as int).subrange(0, ls2 as int + 1)
                            + spec_file_name(v@));
                    }
                    Some(string_from_chars(&out))
                },
                None => Some(string_from_chars(&name)),
            }
        },
    }
}

} // verus!
