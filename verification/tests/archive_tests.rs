use music_organizer::archive::{archive_destination, flatten_tree, ArchiveNameError, DirTree};

#[test]
fn stem_with_two_tokens_gives_artist_and_album() {
    let (artist, album) = archive_destination("Sia-vash").unwrap();
    assert_eq!(artist, "sia");
    assert_eq!(album, "vash");
}

#[test]
fn single_token_falls_back_to_sentinel_album() {
    let (artist, album) = archive_destination("Artist").unwrap();
    assert_eq!(artist, "artist");
    assert_eq!(album, "single songs");
}

#[test]
fn tokens_are_trimmed_and_lowercased() {
    let (artist, album) = archive_destination(" The Band - Greatest Hits ").unwrap();
    assert_eq!(artist, "the band");
    assert_eq!(album, "greatest hits");
}

#[test]
fn extra_tokens_are_ignored() {
    let (artist, album) = archive_destination("a-b-c").unwrap();
    assert_eq!(artist, "a");
    assert_eq!(album, "b");
}

#[test]
fn empty_artist_token_is_an_error() {
    assert_eq!(archive_destination(""), Err(ArchiveNameError::NoTokens));
    assert_eq!(archive_destination(" - x"), Err(ArchiveNameError::NoTokens));
    assert_eq!(archive_destination("   "), Err(ArchiveNameError::NoTokens));
}

#[test]
fn flatten_gathers_files_depth_first() {
    let tree = DirTree {
        files: vec!["a.mp3".to_string()],
        subdirs: vec![
            DirTree {
                files: vec!["b.mp3".to_string()],
                subdirs: vec![DirTree { files: vec!["c.mp3".to_string()], subdirs: vec![] }],
            },
            DirTree { files: vec!["d.mp3".to_string()], subdirs: vec![] },
        ],
    };
    let flat = flatten_tree(tree);
    assert!(flat.subdirs.is_empty());
    assert_eq!(flat.files, vec!["a.mp3", "b.mp3", "c.mp3", "d.mp3"]);
}

#[test]
fn flattening_twice_changes_nothing() {
    let tree = DirTree {
        files: vec!["x.mp3".to_string()],
        subdirs: vec![DirTree { files: vec!["y.mp3".to_string()], subdirs: vec![] }],
    };
    let once = flatten_tree(tree);
    let files_once = once.files.clone();
    let twice = flatten_tree(once);
    assert!(twice.subdirs.is_empty());
    assert_eq!(twice.files, files_once);
}

#[test]
fn flat_directory_is_left_unchanged() {
    let flat = DirTree {
        files: vec!["one.mp3".to_string(), "two.mp3".to_string()],
        subdirs: vec![],
    };
    let out = flatten_tree(flat);
    assert!(out.subdirs.is_empty());
    assert_eq!(out.files, vec!["one.mp3", "two.mp3"]);
}
