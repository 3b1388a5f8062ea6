use music_organizer::paths::{
    archive_type, file_stem, is_archive_file, is_audio_file, ArchiveType,
};

#[test]
fn audio_extension_is_case_insensitive() {
    assert!(is_audio_file("/a/b/song.MP3"));
    assert!(is_audio_file("song.mp3"));
    assert!(!is_audio_file("song.wav"));
    assert!(!is_audio_file("song"));
}

#[test]
fn hidden_file_dot_is_no_extension() {
    assert!(!is_audio_file(".mp3"));
    assert!(is_audio_file("/dir/.hidden.mp3"));
}

#[test]
fn extension_is_read_from_the_file_name_only() {
    assert!(!is_audio_file("dir.mp3/readme"));
    assert!(is_audio_file("dir.wav/track.mp3"));
}

#[test]
fn archive_extension_superset() {
    assert!(is_archive_file("x.ZIP"));
    assert!(is_archive_file("x.rar"));
    assert!(is_archive_file("x.tar"));
    assert!(is_archive_file("x.7z"));
    assert!(is_archive_file("x.gz"));
    assert!(!is_archive_file("x.txt"));
    assert!(!is_archive_file("x"));
}

#[test]
fn only_zip_is_supported() {
    assert_eq!(archive_type("a.zip"), ArchiveType::Zip);
    assert_eq!(archive_type("a.ZiP"), ArchiveType::Zip);
    assert_eq!(archive_type("a.rar"), ArchiveType::Unsupported);
    assert_eq!(archive_type("a"), ArchiveType::Unsupported);
    assert_eq!(ArchiveType::from_str("ZIP"), ArchiveType::Zip);
    assert_eq!(ArchiveType::from_str("tar"), ArchiveType::Unsupported);
}

#[test]
fn file_stem_drops_the_last_extension() {
    assert_eq!(file_stem("/a/b/128-track.mp3"), "128-track");
    assert_eq!(file_stem("a.tar.gz"), "a.tar");
    assert_eq!(file_stem(".hidden"), ".hidden");
    assert_eq!(file_stem("plain"), "plain");
}
