use music_organizer::conf::{Change, Conf};
use music_organizer::route::{
    classify_path, join_path, organize_album_name, parent_move_target, plan_entry,
    plan_organize_entry, Action, OrganizeAction, PathKind,
};

#[test]
fn classification_follows_type_facts_and_extension() {
    assert_eq!(classify_path(true, false, "anything"), PathKind::Directory);
    assert_eq!(classify_path(false, true, "x.mp3"), PathKind::AudioFile);
    assert_eq!(classify_path(false, true, "x.zip"), PathKind::ArchiveFile);
    assert_eq!(classify_path(false, true, "x.txt"), PathKind::Other);
    assert_eq!(classify_path(false, false, "x.mp3"), PathKind::Other);
}

#[test]
fn directories_fan_out() {
    assert_eq!(plan_entry(true, false, "some/dir", false), Action::RecurseInto);
}

#[test]
fn supported_archives_expand_and_others_warn() {
    assert_eq!(plan_entry(false, true, "a.zip", false), Action::ExpandArchive);
    assert_eq!(plan_entry(false, true, "a.rar", false), Action::WarnUnsupportedArchive);
    assert_eq!(plan_entry(false, true, "a.7z", true), Action::WarnUnsupportedArchive);
}

#[test]
fn audio_files_are_retagged() {
    assert_eq!(plan_entry(false, true, "a.mp3", false), Action::RetagAudio);
    assert_eq!(plan_entry(false, true, "a.MP3", true), Action::RetagAudio);
}

#[test]
fn other_files_follow_the_delete_policy() {
    assert_eq!(plan_entry(false, true, "notes.txt", true), Action::DeleteFile);
    assert_eq!(plan_entry(false, true, "notes.txt", false), Action::LeaveUntouched);
    assert_eq!(plan_entry(false, false, "ghost", true), Action::LeaveUntouched);
}

#[test]
fn organize_mode_routes_audio_and_rejects_the_rest() {
    assert_eq!(plan_organize_entry(true, false, "d"), OrganizeAction::RecurseInto);
    assert_eq!(plan_organize_entry(false, true, "t.mp3"), OrganizeAction::MoveToAlbum);
    assert_eq!(plan_organize_entry(false, true, "t.txt"), OrganizeAction::Unsupported);
    assert_eq!(plan_organize_entry(false, false, "t.mp3"), OrganizeAction::Unsupported);
}

#[test]
fn organize_album_name_defaults_to_sentinel() {
    assert_eq!(organize_album_name(&Some("My Album".to_string())), "My Album");
    assert_eq!(organize_album_name(&None), "single songs");
}

#[test]
fn join_path_inserts_one_separator() {
    assert_eq!(join_path("/a/b", "c.mp3"), "/a/b/c.mp3");
    assert_eq!(join_path("rel", "x"), "rel/x");
}

#[test]
fn move_target_drops_the_album_level() {
    assert_eq!(
        parent_move_target("/music/artist/album/song.mp3").as_deref(),
        Some("/music/artist/song.mp3")
    );
    assert_eq!(parent_move_target("a/b/c.mp3").as_deref(), Some("a/c.mp3"));
    assert_eq!(parent_move_target("b/c.mp3").as_deref(), Some("c.mp3"));
    assert_eq!(parent_move_target("/c.mp3"), None);
    assert_eq!(parent_move_target("c.mp3"), None);
}

#[test]
fn derived_descriptor_copies_policies_and_swaps_path() {
    let conf = Conf {
        file_path: "/top".to_string(),
        artist: Change::Auto,
        album: Change::Fixed("fixed album".to_string()),
        title: Change::Disabled,
        remove_other_file: true,
        remove_zip_file: false,
        move_to_parent: true,
        change: false,
    };
    let child = conf.copy_from_file_path("/top/sub/track.mp3".to_string());
    assert_eq!(child.file_path, "/top/sub/track.mp3");
    assert!(matches!(child.artist, Change::Auto));
    assert!(matches!(&child.album, Change::Fixed(s) if s == "fixed album"));
    assert!(matches!(child.title, Change::Disabled));
    assert!(child.remove_other_file);
    assert!(!child.remove_zip_file);
    assert!(child.move_to_parent);
    assert!(!child.change);
}
