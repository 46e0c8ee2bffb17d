use groovy::config::Config;
use groovy::library::{is_audio_file, number_tracks, select_audio_files, track_from_tags, Track, WalkEntry};
use groovy::timing::TimeSpan;

#[test]
fn audio_files_are_told_by_extension_in_any_case() {
    assert!(is_audio_file("/m/song.mp3"));
    assert!(is_audio_file("/m/song.MP3"));
    assert!(is_audio_file("/m/a.b.Flac"));
    assert!(is_audio_file("x.opus"));
    assert!(is_audio_file("x.wma"));
    assert!(!is_audio_file("/m/cover.jpg"));
    assert!(!is_audio_file("/m/mp3"));
    assert!(!is_audio_file("/m/.mp3"));
    assert!(!is_audio_file(""));
}

#[test]
fn only_regular_audio_files_are_selected_in_walk_order() {
    let entries = vec![
        WalkEntry { path: "/p".to_string(), is_file: false },
        WalkEntry { path: "/p/b.ogg".to_string(), is_file: true },
        WalkEntry { path: "/p/dir.mp3".to_string(), is_file: false },
        WalkEntry { path: "/p/notes.txt".to_string(), is_file: true },
        WalkEntry { path: "/p/a.m4a".to_string(), is_file: true },
    ];
    assert_eq!(select_audio_files(&entries), vec!["/p/b.ogg".to_string(), "/p/a.m4a".to_string()]);
}

fn t(title: &str) -> Track {
    Track { index: 0, title: title.to_string(), path: format!("/p/{}", title), duration: TimeSpan::new(1, 0) }
}

#[test]
fn unreadable_files_are_skipped_and_the_rest_numbered_from_one() {
    let tracks = number_tracks(vec![Some(t("a")), None, Some(t("b")), None, Some(t("c"))]);
    let seen: Vec<(usize, &str)> = tracks.iter().map(|t| (t.index, t.title.as_str())).collect();
    assert_eq!(seen, vec![(1, "a"), (2, "b"), (3, "c")]);
    assert!(number_tracks(vec![None, None]).is_empty());
}

#[test]
fn titles_fall_back_to_the_file_stem_then_unknown() {
    let d = TimeSpan::new(200, 0);
    let tagged = track_from_tags("/p/x.flac".to_string(), Some("Real Title".to_string()), d);
    assert_eq!(tagged.title, "Real Title");
    assert_eq!(tagged.index, 0);
    assert_eq!(tagged.duration, d);
    let stem = track_from_tags("/p/my song.flac".to_string(), None, d);
    assert_eq!(stem.title, "my song");
    assert_eq!(stem.path, "/p/my song.flac");
    let none = track_from_tags("/".to_string(), None, d);
    assert_eq!(none.title, "Unknown");
}

#[test]
fn adding_a_playlist_appends_it() {
    let mut c = Config::default();
    assert!(c.playlists.is_empty());
    c.add_playlist("A".to_string(), "/a".to_string());
    c.add_playlist("B".to_string(), "/b".to_string());
    let names: Vec<&str> = c.playlists.iter().map(|p| p.name.as_str()).collect();
    assert_eq!(names, vec!["A", "B"]);
    assert_eq!(c.playlists[1].path, "/b");
}
