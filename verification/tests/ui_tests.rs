use groovy::app::{App, ControlButton, PlaybackState, RepeatMode};
use groovy::ui::{
    indented, input_line, play_pause_icon, play_pause_look, playlist_label, repeat_icon, repeat_look,
    shuffle_look, track_number_label, ButtonLook,
};
use groovy::config::{Config, PlaylistEntry};
use groovy::library::Track;
use groovy::timing::TimeSpan;
use groovy::ui::{
    bottom_bar_layout, button_at, centered_rect, clicked_button, format_duration, progress_bar_width,
    split_content_and_bar, Rect,
};

fn rect(x: u16, y: u16, width: u16, height: u16) -> Rect {
    Rect { x, y, width, height }
}

#[test]
fn durations_are_formatted() {
    assert_eq!(format_duration(TimeSpan::new(0, 0)), "0:00");
    assert_eq!(format_duration(TimeSpan::new(59, 999_999_999)), "0:59");
    assert_eq!(format_duration(TimeSpan::new(61, 0)), "1:01");
    assert_eq!(format_duration(TimeSpan::new(600, 0)), "10:00");
    assert_eq!(format_duration(TimeSpan::new(3661, 0)), "1:01:01");
    assert_eq!(format_duration(TimeSpan::new(36000, 0)), "10:00:00");
}

#[test]
fn the_bottom_bar_takes_the_last_four_rows() {
    let (content, bar) = split_content_and_bar(rect(0, 0, 80, 24));
    assert_eq!(content, rect(0, 0, 80, 20));
    assert_eq!(bar, rect(0, 20, 80, 4));
}

#[test]
fn buttons_are_centered_on_the_first_content_row() {
    let l = bottom_bar_layout(rect(0, 20, 80, 4));
    assert_eq!(l.prev, rect(18, 21, 7, 1));
    assert_eq!(l.play_pause, rect(27, 21, 7, 1));
    assert_eq!(l.next, rect(36, 21, 7, 1));
    assert_eq!(l.shuffle, rect(45, 21, 7, 1));
    assert_eq!(l.repeat, rect(54, 21, 7, 1));
    let narrow = bottom_bar_layout(rect(5, 0, 20, 4));
    assert_eq!(narrow.prev, rect(5, 1, 7, 1));
}

#[test]
fn clicks_land_on_buttons() {
    let bar = rect(0, 20, 80, 4);
    assert_eq!(button_at(bar, 18, 21), Some(ControlButton::Prev));
    assert_eq!(button_at(bar, 24, 21), Some(ControlButton::Prev));
    assert_eq!(button_at(bar, 25, 21), None);
    assert_eq!(button_at(bar, 30, 21), Some(ControlButton::PlayPause));
    assert_eq!(button_at(bar, 40, 21), Some(ControlButton::Next));
    assert_eq!(button_at(bar, 45, 21), Some(ControlButton::Shuffle));
    assert_eq!(button_at(bar, 60, 21), Some(ControlButton::Repeat));
    assert_eq!(button_at(bar, 60, 22), None);
    assert_eq!(clicked_button(rect(0, 0, 80, 24), 20, 21), Some(ControlButton::Prev));
    assert_eq!(clicked_button(rect(0, 0, 80, 24), 20, 5), None);
}

#[test]
fn popups_are_centered() {
    assert_eq!(centered_rect(60, 3, rect(0, 0, 80, 24)), rect(16, 10, 48, 3));
    assert_eq!(centered_rect(60, 30, rect(2, 2, 10, 5)), rect(4, 2, 6, 30));
}

#[test]
fn the_progress_bar_width_is_clamped() {
    assert_eq!(progress_bar_width(0), 10);
    assert_eq!(progress_bar_width(30), 10);
    assert_eq!(progress_bar_width(100), 76);
    assert_eq!(progress_bar_width(200), 80);
}

#[test]
fn the_progress_line_shows_the_track_or_a_hint() {
    let mut app = App::new(Config {
        playlists: vec![PlaylistEntry { name: "P".to_string(), path: "/p".to_string() }],
    });
    assert_eq!(app.progress_line(10, 3), "no playlist open");
    app.open_playlist(
        0,
        vec![Track { index: 1, title: "Intro".to_string(), path: "/p/i.mp3".to_string(), duration: TimeSpan::new(125, 0) }],
    );
    assert_eq!(app.progress_line(10, 3), "select a track and press Enter");
    assert!(app.now_playing_track().is_none());
    app.play_selected_track();
    app.position = TimeSpan::new(42, 0);
    assert_eq!(app.now_playing_track().unwrap().title, "Intro");
    assert_eq!(app.progress_line(10, 3), "Intro   0:42 [===-------] 2:05");
    assert_eq!(app.progress_line(4, 9), "Intro   0:42 [=========] 2:05");
}

#[test]
fn labels_and_button_looks() {
    assert_eq!(track_number_label(12, true), ">12");
    assert_eq!(track_number_label(3, false), " 3");
    assert_eq!(playlist_label(&PlaylistEntry { name: "Rock".to_string(), path: "/m/r".to_string() }), "Rock (/m/r)");
    assert_eq!(indented("tunes"), " tunes");
    assert_eq!(input_line("abc"), "abc_");
    assert_eq!(play_pause_look(PlaybackState::Playing), ButtonLook::Active);
    assert_eq!(play_pause_look(PlaybackState::Paused), ButtonLook::Inactive);
    assert_eq!(play_pause_icon(PlaybackState::Playing), "\u{23f8}");
    assert_eq!(play_pause_icon(PlaybackState::Stopped), "\u{25b6}");
    assert_eq!(shuffle_look(true), ButtonLook::Active);
    assert_eq!(shuffle_look(false), ButtonLook::Inactive);
    assert_eq!(repeat_look(RepeatMode::Off), ButtonLook::Inactive);
    assert_eq!(repeat_look(RepeatMode::All), ButtonLook::Active);
    assert_eq!(repeat_look(RepeatMode::One), ButtonLook::RepeatOne);
    assert_eq!(repeat_icon(RepeatMode::One), "\u{21bb}1");
    assert_eq!(repeat_icon(RepeatMode::All), "\u{21bb}");
}
