//! The job descriptor: the target path, one override mode per tag field,
//! and the policy switches. A descriptor is cloned with a new path when
//! traversal recurses; every other field is copied verbatim.

use vstd::prelude::*;

verus! {

/// How one tag field is decided: left untouched, inferred from the path,
/// or overridden with a fixed value.
#[derive(Clone, Debug)]
pub enum Change {
    Disabled,
    Auto,
    Fixed(String),
}

/// The two modes agree, a fixed value comparing by its characters.
pub open spec fn change_eq(a: &Change, b: &Change) -> bool {
    match (a, b) {
        (Change::Disabled, Change::Disabled) => true,
        (Change::Auto, Change::Auto) => true,
        (Change::Fixed(x), Change::Fixed(y)) => x@ == y@,
        _ => false,
    }
}

impl Change {
    /// An equal mode value.
    pub fn duplicate(&self) -> (r: Change)
        ensures
            change_eq(self, &r),
    {
        match self {
            Change::Disabled => Change::Disabled,
            Change::Auto => Change::Auto,
            Change::Fixed(s) => Change::Fixed(s.clone()),
        }
    }
}

/// One traversal job: a target path and the policies that govern it.
#[derive(Clone, Debug)]
pub struct Conf {
    pub file_path: String,
    pub artist: Change,
    pub album: Change,
    pub title: Change,
    pub remove_other_file: bool,
    pub remove_zip_file: bool,
    pub move_to_parent: bool,
    pub change: bool,
}

impl Conf {
    /// The derived descriptor for a sub-path: the new path, every policy
    /// field copied verbatim.
    pub fn copy_from_file_path(&self, file_path: String) -> (r: Self)
        ensures
            r.file_path@ == file_path@,
            change_eq(&self.artist, &r.artist),
            change_eq(&self.album, &r.album),
            change_eq(&self.title, &r.title),
            r.remove_other_file == self.remove_other_file,
            r.remove_zip_file == self.remove_zip_file,
            r.move_to_parent == self.move_to_parent,
            r.change == self.change,
    {
        Self {
            file_path,
            artist: self.artist.duplicate(),
            album: self.album.duplicate(),
            title: self.title.duplicate(),
            remove_other_file: self.remove_other_file,
            remove_zip_file: self.remove_zip_file,
            move_to_parent: self.move_to_parent,
            change: self.change,
        }
    }
}

} // verus!
