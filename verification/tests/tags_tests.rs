use music_organizer::conf::{Change, Conf};
use music_organizer::tags::{apply_tags, process_tags, InferredTags, TagError, TagState};

fn conf_for(path: &str) -> Conf {
    Conf {
        file_path: path.to_string(),
        artist: Change::Auto,
        album: Change::Auto,
        title: Change::Auto,
        remove_other_file: false,
        remove_zip_file: false,
        move_to_parent: false,
        change: true,
    }
}

#[test]
fn auto_modes_infer_from_path() {
    let conf = conf_for("/music/Sia-vash/Single Songs/128-track.mp3");
    let p = process_tags(&conf).unwrap();
    assert_eq!(p.artist.as_deref(), Some("sia-vash"));
    assert_eq!(p.album.as_deref(), Some("single songs - sia-vash"));
    assert_eq!(p.title.as_deref(), Some("track"));
    assert_eq!(p.track, None);
}

#[test]
fn album_outside_sentinel_is_kept() {
    let conf = conf_for("/music/Artist/Great Album/02 - Song.mp3");
    let p = process_tags(&conf).unwrap();
    assert_eq!(p.artist.as_deref(), Some("artist"));
    assert_eq!(p.album.as_deref(), Some("great album"));
    assert_eq!(p.title.as_deref(), Some("song"));
    assert_eq!(p.track, Some(2));
}

#[test]
fn missing_ancestors_default_to_unknown() {
    let conf = conf_for("track.mp3");
    let p = process_tags(&conf).unwrap();
    assert_eq!(p.artist.as_deref(), Some("unknown"));
    assert_eq!(p.album.as_deref(), Some("unknown"));
}

#[test]
fn empty_path_has_no_parent() {
    let conf = conf_for("");
    assert_eq!(process_tags(&conf), Err(TagError::NoParent));
    let root = conf_for("/");
    assert_eq!(process_tags(&root), Err(TagError::NoParent));
}

#[test]
fn disabled_modes_touch_nothing() {
    let mut conf = conf_for("/a/b/c.mp3");
    conf.artist = Change::Disabled;
    conf.album = Change::Disabled;
    conf.title = Change::Disabled;
    let p = process_tags(&conf).unwrap();
    assert_eq!(p, InferredTags { artist: None, album: None, title: None, track: None });
}

#[test]
fn fixed_modes_override_verbatim() {
    let mut conf = conf_for("/a/b/c.mp3");
    conf.artist = Change::Fixed("The Band".to_string());
    conf.album = Change::Fixed("An Album".to_string());
    conf.title = Change::Fixed("A Title".to_string());
    let p = process_tags(&conf).unwrap();
    assert_eq!(p.artist.as_deref(), Some("The Band"));
    assert_eq!(p.album.as_deref(), Some("An Album"));
    assert_eq!(p.title.as_deref(), Some("A Title"));
    assert_eq!(p.track, None);
}

#[test]
fn apply_replaces_planned_fields_and_clears_comment() {
    let state = TagState {
        artist: Some("old artist".to_string()),
        album: None,
        title: Some("old title".to_string()),
        track: Some(9),
        comment: Some("ripped by someone".to_string()),
    };
    let plan = InferredTags {
        artist: Some("new artist".to_string()),
        album: Some("new album".to_string()),
        title: None,
        track: None,
    };
    let out = apply_tags(&state, &plan);
    assert_eq!(out.artist.as_deref(), Some("new artist"));
    assert_eq!(out.album.as_deref(), Some("new album"));
    assert_eq!(out.title.as_deref(), Some("old title"));
    assert_eq!(out.track, Some(9));
    assert_eq!(out.comment, None);
}

#[test]
fn retagged_file_gets_nonempty_title_and_no_comment() {
    let conf = conf_for("/music/Artist/Album/07 - Keeper.mp3");
    let plan = process_tags(&conf).unwrap();
    let state = TagState {
        artist: None,
        album: None,
        title: None,
        track: None,
        comment: Some("junk".to_string()),
    };
    let out = apply_tags(&state, &plan);
    assert!(!out.title.as_deref().unwrap().is_empty());
    assert_eq!(out.comment, None);
}

#[test]
fn inference_is_deterministic() {
    let conf = conf_for("/m/a/b/03 - x.mp3");
    assert_eq!(process_tags(&conf).unwrap(), process_tags(&conf).unwrap());
}
