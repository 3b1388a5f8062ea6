use music_organizer::title::{collapse_title, get_name_and_track_number};

#[test]
fn numbered_pattern_extracts_track_and_name() {
    let (track, name) = get_name_and_track_number("05) Bright Lights", "shadows");
    assert_eq!(track, Some(5));
    assert_eq!(name, "Bright Lights");
}

#[test]
fn separator_pattern_extracts_name_without_track() {
    let (track, name) = get_name_and_track_number("shadows - Bright Lights", "shadows");
    assert_eq!(track, None);
    assert_eq!(name, "Bright Lights");
}

#[test]
fn separator_pattern_works_when_artist_absent() {
    let (track, name) = get_name_and_track_number("shadows - Bright Lights", "someone else");
    assert_eq!(track, None);
    assert_eq!(name, "Bright Lights");
}

#[test]
fn numbered_pattern_allows_zero_track() {
    let (track, name) = get_name_and_track_number("00 intro", "x");
    assert_eq!(track, Some(0));
    assert_eq!(name, "intro");
}

#[test]
fn fallback_replaces_underscores_and_strips_artist() {
    let (track, name) = get_name_and_track_number("my_song_here", "artist");
    assert_eq!(track, None);
    assert_eq!(name, "my song here");
}

#[test]
fn numbered_pattern_reads_dashes_as_spaces() {
    let (track, name) = get_name_and_track_number("03 - my-song", "x");
    assert_eq!(track, Some(3));
    assert_eq!(name, "my song");
}

#[test]
fn numbered_pattern_keeps_brackets_and_commas() {
    let (track, name) = get_name_and_track_number("12 - Song (live), take 2", "x");
    assert_eq!(track, Some(12));
    assert_eq!(name, "Song (live), take 2");
}

#[test]
fn collapse_squeezes_whitespace() {
    assert_eq!(collapse_title("hello   world", "x"), "hello world");
    assert_eq!(collapse_title("  a  b ", "none"), "a b");
}

#[test]
fn collapse_drops_artist_tokens() {
    assert_eq!(collapse_title("shadows Bright Lights", "shadows"), "Bright Lights");
    assert_eq!(collapse_title("  a  b ", "b"), "a");
}

#[test]
fn collapse_of_empty_is_empty() {
    assert_eq!(collapse_title("", "x"), "");
    assert_eq!(collapse_title("   ", "x"), "");
}
