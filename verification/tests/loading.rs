use music_player::loadfile::{build_song, is_music_file, order_library, sort_paths};

fn strings(v: &[&str]) -> Vec<String> {
    v.iter().map(|s| s.to_string()).collect()
}

fn pairs(v: &[(&str, &str)]) -> Vec<(String, String)> {
    v.iter().map(|(k, x)| (k.to_string(), x.to_string())).collect()
}

#[test]
fn recognizes_each_extension() {
    assert!(is_music_file("a.flac"));
    assert!(is_music_file("a.mp3"));
    assert!(is_music_file("a.wav"));
    assert!(is_music_file("a.m4a"));
    assert!(is_music_file("a.ogg"));
}

#[test]
fn rejects_other_names() {
    assert!(!is_music_file("a.txt"));
    assert!(!is_music_file("a.MP3"));
    assert!(!is_music_file("a.mp3.bak"));
    assert!(!is_music_file("mp3"));
    assert!(!is_music_file(""));
}

#[test]
fn sort_paths_orders_lexicographically() {
    let sorted = sort_paths(&strings(&["b.mp3", "a.mp3", "ab.mp3", "a.mp3"]));
    assert_eq!(sorted, strings(&["a.mp3", "a.mp3", "ab.mp3", "b.mp3"]));
}

#[test]
fn library_order_subdirs_first_then_sorted_top() {
    // Subdirectory hits keep the walk's order; the directory's own files
    // come after, sorted; everything unrecognized is left out.
    let sub = strings(&["lib/z/b.mp3", "lib/a/c.flac", "lib/a/notes.txt"]);
    let top = strings(&["lib/c.mp3", "lib/a.flac", "lib/readme.md", "lib/b.ogg"]);
    let r = order_library(&sub, &top);
    assert_eq!(
        r,
        strings(&["lib/z/b.mp3", "lib/a/c.flac", "lib/a.flac", "lib/b.ogg", "lib/c.mp3"])
    );
}

#[test]
fn build_song_reads_tags_case_insensitively() {
    // Keys arrive in whatever case the file carries; they are folded
    // before matching, so an unfolded key must still land in its field.
    let s = build_song(
        "lib/x.mp3",
        &pairs(&[("TITLE", "Song X"), ("Artist", "Someone"), ("ALBUM", "Best"), ("date", "2001")]),
        95,
    );
    assert_eq!(s.title, "Song X");
    assert_eq!(s.artist, "Someone");
    assert_eq!(s.album, "Best");
    assert_eq!(s.date, "2001");
    assert_eq!(s.duration, 95);
    assert_eq!(s.path, "lib/x.mp3");
    assert!(!s.playing);
}

#[test]
fn build_song_later_tags_overwrite_earlier() {
    let s = build_song(
        "lib/x.mp3",
        &pairs(&[("title", "First"), ("title", "Second")]),
        1,
    );
    assert_eq!(s.title, "Second");
}

#[test]
fn build_song_skips_garbled_values() {
    let s = build_song(
        "lib/Morning Song.mp3",
        &pairs(&[("title", "?????"), ("artist", "?bad")]),
        1,
    );
    // Both values are garbled, so the title falls back to the file name.
    assert_eq!(s.title, "Morning Song");
    assert_eq!(s.artist, "");
}

#[test]
fn build_song_title_falls_back_to_file_name() {
    let s = build_song("music/disc/07 Track.flac", &pairs(&[("album", "X")]), 3);
    assert_eq!(s.title, "07 Track");
    assert_eq!(s.album, "X");
}

#[test]
fn fallback_title_strips_repeated_extensions() {
    let s = build_song("a.mp3.mp3", &pairs(&[]), 0);
    assert_eq!(s.title, "a");
    // Stripping runs one extension kind after another, so a name ending
    // in an earlier-checked extension keeps it once a later one is gone.
    let s2 = build_song("x.flac.mp3", &pairs(&[]), 0);
    assert_eq!(s2.title, "x.flac");
}

#[test]
fn unknown_keys_are_ignored() {
    let s = build_song("a.ogg", &pairs(&[("genre", "rock"), ("Title", "T")]), 2);
    assert_eq!(s.title, "T");
    assert_eq!(s.artist, "");
    assert_eq!(s.album, "");
    assert_eq!(s.date, "");
}

#[test]
fn default_song_is_empty() {
    let s = music_player::track::Song::default();
    assert_eq!(s.title, "");
    assert_eq!(s.artist, "");
    assert_eq!(s.album, "");
    assert_eq!(s.date, "");
    assert_eq!(s.path, "");
    assert_eq!(s.duration, 0);
    assert!(!s.playing);
}
