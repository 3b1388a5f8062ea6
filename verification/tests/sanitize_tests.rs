use music_organizer::sanitize::clean;

#[test]
fn clean_lowercases_and_trims() {
    assert_eq!(clean("  Single Songs  "), "single songs");
    assert_eq!(clean("Sia-vash"), "sia-vash");
}

#[test]
fn clean_replaces_dots_with_dashes() {
    assert_eq!(clean("My.Band.Name"), "my-band-name");
}

#[test]
fn clean_strips_bitrate_markers() {
    assert_eq!(clean("128-track"), "-track");
    assert_eq!(clean("song 192"), "song");
    assert_eq!(clean("320 kbps song"), "kbps song");
}

#[test]
fn clean_strips_empty_bracket_pairs() {
    assert_eq!(clean("My Song () []"), "my song");
    assert_eq!(clean("My.Song (192) []"), "my-song");
}

#[test]
fn clean_empty_input_is_empty() {
    assert_eq!(clean(""), "");
    assert_eq!(clean("   "), "");
}

#[test]
fn clean_idempotent_on_ordinary_names() {
    let inputs = [
        "  ABC..128xyz ",
        "Sia-vash",
        "Single Songs",
        "My.Song (192) []",
        "",
        "already clean",
    ];
    for x in inputs {
        let once = clean(x);
        assert_eq!(clean(&once), once);
    }
}

#[test]
fn clean_can_splice_a_marker_back_together() {
    // Removing one marker occurrence can splice a fresh one out of its
    // neighbours; only then does a second pass differ from the first.
    assert_eq!(clean("112828"), "128");
    assert_eq!(clean("128"), "");
}
