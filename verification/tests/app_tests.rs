use groovy::app::{App, ControlButton, Effect, HomeMode, Key, PlaybackState, RepeatMode, Screen};
use groovy::browser::DirEntryItem;
use groovy::config::{Config, PlaylistEntry};
use groovy::library::Track;
use groovy::player::{PlayerCommand, PlayerStatus};
use groovy::timing::TimeSpan;

fn track(i: usize) -> Track {
    Track {
        index: i + 1,
        title: format!("Song {}", i),
        path: format!("/music/{}.mp3", i),
        duration: TimeSpan::new(180, 0),
    }
}

fn config() -> Config {
    Config {
        playlists: vec![
            PlaylistEntry { name: "Rock".to_string(), path: "/music/rock".to_string() },
            PlaylistEntry { name: "Jazz".to_string(), path: "/music/jazz".to_string() },
        ],
    }
}

fn playing_app(n: usize) -> App {
    let mut app = App::new(config());
    app.open_playlist(0, (0..n).map(track).collect());
    app
}

fn is_play_of(e: &Effect, i: usize) -> bool {
    match e {
        Effect::Player(PlayerCommand::Play(p)) => *p == format!("/music/{}.mp3", i),
        _ => false,
    }
}

fn is_idle(e: &Effect) -> bool {
    matches!(e, Effect::Idle)
}

#[test]
fn starts_on_the_home_list() {
    let app = App::new(config());
    assert_eq!(app.screen, Screen::Home);
    assert_eq!(app.home_mode, HomeMode::List);
    assert_eq!(app.playback_state, PlaybackState::Stopped);
    assert_eq!(app.repeat_mode, RepeatMode::Off);
    assert!(!app.shuffle && !app.should_quit && !app.sidebar_open);
    assert!(app.current_playlist.is_none() && app.now_playing_index.is_none());
    assert_eq!(app.config.playlists.len(), 2);
}

#[test]
fn q_quits_from_the_list() {
    let mut app = App::new(config());
    let e = app.handle_key(Key::Char('q'));
    assert!(is_idle(&e));
    assert!(app.should_quit);
}

#[test]
fn home_list_moves_and_opens() {
    let mut app = App::new(config());
    app.handle_key(Key::Down);
    app.handle_key(Key::Char('j'));
    assert_eq!(app.home_selected, 1);
    app.handle_key(Key::Up);
    app.handle_key(Key::Char('k'));
    assert_eq!(app.home_selected, 0);
    let e = app.handle_key(Key::Enter);
    assert!(matches!(e, Effect::ScanPlaylist(0)));
    app.open_playlist(0, vec![track(0), track(1)]);
    assert_eq!(app.screen, Screen::Playlist);
    assert_eq!(app.track_selected, 0);
    let p = app.current_playlist.as_ref().unwrap();
    assert_eq!(p.name, "Rock");
    assert_eq!(p.path, "/music/rock");
    assert_eq!(p.tracks.len(), 2);
}

#[test]
fn opening_a_missing_playlist_changes_nothing() {
    let mut app = App::new(config());
    app.open_playlist(5, vec![track(0)]);
    assert!(app.current_playlist.is_none());
    assert_eq!(app.screen, Screen::Home);
}

#[test]
fn enter_plays_the_highlighted_track() {
    let mut app = playing_app(3);
    app.handle_key(Key::Down);
    let e = app.handle_key(Key::Enter);
    assert!(is_play_of(&e, 1));
    assert_eq!(app.now_playing_index, Some(1));
}

#[test]
fn next_stops_after_the_last_track_without_repeat() {
    let mut app = playing_app(2);
    assert!(is_play_of(&app.handle_key(Key::Char('n')), 0));
    assert!(is_play_of(&app.handle_key(Key::Char('n')), 1));
    assert!(is_idle(&app.handle_key(Key::Char('n'))));
    assert_eq!(app.now_playing_index, None);
}

#[test]
fn repeat_all_wraps_both_ways() {
    let mut app = playing_app(3);
    app.handle_key(Key::Char('r'));
    assert_eq!(app.repeat_mode, RepeatMode::All);
    app.now_playing_index = Some(2);
    assert!(is_play_of(&app.handle_key(Key::Char('n')), 0));
    assert!(is_play_of(&app.handle_key(Key::Char('p')), 2));
    assert!(is_play_of(&app.handle_key(Key::Char('p')), 1));
}

#[test]
fn previous_stays_on_the_first_track_without_repeat() {
    let mut app = playing_app(3);
    app.now_playing_index = Some(0);
    assert!(is_play_of(&app.handle_key(Key::Char('p')), 0));
    app.now_playing_index = None;
    assert!(is_play_of(&app.handle_key(Key::Char('p')), 0));
}

#[test]
fn repeat_cycles_through_three_modes() {
    let mut app = playing_app(1);
    app.handle_key(Key::Char('r'));
    app.handle_key(Key::Char('r'));
    assert_eq!(app.repeat_mode, RepeatMode::One);
    app.handle_key(Key::Char('r'));
    assert_eq!(app.repeat_mode, RepeatMode::Off);
    assert_eq!(RepeatMode::Off.cycle(), RepeatMode::All);
}

#[test]
fn shuffle_picks_another_track() {
    let mut app = playing_app(3);
    app.handle_key(Key::Char('s'));
    assert!(app.shuffle);
    for _ in 0..20 {
        let before = app.now_playing_index;
        let e = app.handle_key(Key::Char('n'));
        let now = app.now_playing_index.unwrap();
        assert!(now < 3);
        assert!(is_play_of(&e, now));
        if let Some(b) = before {
            assert_ne!(b, now);
        }
    }
    assert_eq!(App::random_track_index(&app, 1), 0);
    app.handle_key(Key::Char('s'));
    assert!(!app.shuffle);
}

#[test]
fn space_pauses_resumes_and_ignores_a_stopped_player() {
    let mut app = playing_app(1);
    assert!(is_idle(&app.handle_key(Key::Char(' '))));
    app.playback_state = PlaybackState::Playing;
    assert!(matches!(app.handle_key(Key::Char(' ')), Effect::Player(PlayerCommand::Pause)));
    app.playback_state = PlaybackState::Paused;
    assert!(matches!(app.handle_key(Key::Char(' ')), Effect::Player(PlayerCommand::Resume)));
}

#[test]
fn status_updates_are_folded_in() {
    let mut app = playing_app(2);
    app.handle_key(Key::Enter);
    let cmds = app.poll_player(vec![
        PlayerStatus::Playing { path: "/music/0.mp3".to_string(), position: TimeSpan::new(3, 5) },
        PlayerStatus::Paused { position: TimeSpan::new(4, 0) },
    ]);
    assert!(cmds.is_empty());
    assert_eq!(app.playback_state, PlaybackState::Paused);
    assert_eq!(app.position, TimeSpan::new(4, 0));
    let cmds = app.poll_player(vec![PlayerStatus::Error("no device".to_string())]);
    assert!(cmds.is_empty());
    assert_eq!(app.status_message, Some("no device".to_string()));
    assert_eq!(app.playback_state, PlaybackState::Stopped);
    let cmds = app.poll_player(vec![PlayerStatus::Stopped]);
    assert!(cmds.is_empty());
    assert_eq!(app.now_playing_index, None);
    assert_eq!(app.position, TimeSpan::zero());
}

#[test]
fn a_finished_track_advances() {
    let mut app = playing_app(2);
    app.handle_key(Key::Enter);
    let cmds = app.poll_player(vec![PlayerStatus::Finished]);
    assert_eq!(cmds, vec![PlayerCommand::Play("/music/1.mp3".to_string())]);
    assert_eq!(app.now_playing_index, Some(1));
    assert_eq!(app.playback_state, PlaybackState::Stopped);
}

#[test]
fn repeat_one_replays_a_finished_track() {
    let mut app = playing_app(3);
    app.handle_key(Key::Down);
    app.handle_key(Key::Enter);
    app.repeat_mode = RepeatMode::One;
    let cmds = app.poll_player(vec![PlayerStatus::Finished, PlayerStatus::Finished]);
    assert_eq!(
        cmds,
        vec![PlayerCommand::Play("/music/1.mp3".to_string()), PlayerCommand::Play("/music/1.mp3".to_string())]
    );
    assert_eq!(app.now_playing_index, Some(1));
}

#[test]
fn track_highlight_is_clamped() {
    let mut app = playing_app(3);
    app.handle_key(Key::Up);
    assert_eq!(app.track_selected, 0);
    app.handle_scroll(10);
    assert_eq!(app.track_selected, 2);
    app.handle_scroll(-1);
    assert_eq!(app.track_selected, 1);
    app.screen = Screen::Home;
    app.handle_scroll(1);
    assert_eq!(app.track_selected, 1);
}

#[test]
fn highlight_arithmetic_limits_are_reported() {
    let mut app = playing_app(3);
    assert!(app.can_move_selection(1));
    assert!(app.can_handle_key(Key::Down));
    app.track_selected = i32::MAX as usize;
    assert!(!app.can_move_selection(1));
    assert!(!app.can_handle_key(Key::Char('j')));
    assert!(app.can_handle_key(Key::Up));
    let empty = App::new(config());
    assert!(empty.can_move_selection(i32::MAX));
}

#[test]
fn escape_and_sidebar_on_the_playlist_screen() {
    let mut app = playing_app(1);
    app.handle_key(Key::Char('b'));
    assert!(app.sidebar_open);
    app.advance_screen();
    assert_eq!(app.screen, Screen::Cinema);
    app.advance_screen();
    assert_eq!(app.screen, Screen::Cinema);
    app.handle_key(Key::Esc);
    assert_eq!(app.screen, Screen::Playlist);
    app.handle_key(Key::Esc);
    assert_eq!(app.screen, Screen::Home);
    app.retreat_screen();
    assert_eq!(app.screen, Screen::Home);
}

#[test]
fn buttons_do_what_their_keys_do() {
    let mut by_key = playing_app(3);
    let mut by_click = playing_app(3);
    let k = by_key.handle_key(Key::Char('n'));
    let c = ControlButton::Next.activate(&mut by_click);
    assert!(is_play_of(&k, 0));
    assert_eq!(c, Some(PlayerCommand::Play("/music/0.mp3".to_string())));
    assert_eq!(by_key.now_playing_index, by_click.now_playing_index);
    by_key.handle_key(Key::Char('r'));
    ControlButton::Repeat.activate(&mut by_click);
    assert_eq!(by_key.repeat_mode, by_click.repeat_mode);
    by_key.handle_key(Key::Char('s'));
    ControlButton::Shuffle.activate(&mut by_click);
    assert_eq!(by_key.shuffle, by_click.shuffle);
    by_key.playback_state = PlaybackState::Playing;
    by_click.playback_state = PlaybackState::Playing;
    assert!(matches!(by_key.handle_key(Key::Char(' ')), Effect::Player(PlayerCommand::Pause)));
    assert_eq!(ControlButton::PlayPause.activate(&mut by_click), Some(PlayerCommand::Pause));
    assert_eq!(ControlButton::Prev.activate(&mut by_click).is_some(), true);
}

#[test]
fn browsing_and_saving_a_playlist() {
    let mut app = App::new(config());
    assert!(matches!(app.handle_key(Key::Char('n')), Effect::BrowseHome));
    app.start_browsing(
        "/home/me".to_string(),
        vec![DirEntryItem { name: "tunes".to_string(), path: "/home/me/tunes".to_string(), is_dir: true }],
    );
    assert_eq!(app.home_mode, HomeMode::Browsing);
    assert!(matches!(app.handle_key(Key::Char('l')), Effect::ListDirectory));
    assert_eq!(app.browser.as_ref().unwrap().current_dir, "/home/me/tunes");
    app.browser_listed(Vec::new());
    assert!(app.browser.as_ref().unwrap().entries.is_empty());
    // 'q' is text while browsing: it does not quit
    app.handle_key(Key::Char('s'));
    assert_eq!(app.home_mode, HomeMode::Naming);
    for c in "  My qList ".chars() {
        app.handle_key(Key::Char(c));
    }
    assert!(!app.should_quit);
    app.handle_key(Key::Backspace);
    assert_eq!(app.naming_input, "  My qList");
    assert!(matches!(app.handle_key(Key::Enter), Effect::SaveConfig));
    assert_eq!(app.home_mode, HomeMode::List);
    assert!(app.browser.is_none());
    assert_eq!(app.naming_input, "");
    let last = app.config.playlists.last().unwrap();
    assert_eq!(last.name, "My qList");
    assert_eq!(last.path, "/home/me/tunes");
    app.config_saved(Some("disk full".to_string()));
    assert_eq!(app.status_message, Some("save failed: disk full".to_string()));
    app.config_saved(None);
    assert_eq!(app.status_message, None);
}

#[test]
fn a_blank_name_is_not_saved() {
    let mut app = App::new(config());
    app.start_browsing("/x".to_string(), Vec::new());
    app.handle_key(Key::Char('s'));
    app.handle_key(Key::Char(' '));
    assert!(is_idle(&app.handle_key(Key::Enter)));
    assert_eq!(app.home_mode, HomeMode::Naming);
    assert_eq!(app.config.playlists.len(), 2);
    app.handle_key(Key::Esc);
    assert_eq!(app.home_mode, HomeMode::Browsing);
    app.handle_key(Key::Esc);
    assert_eq!(app.home_mode, HomeMode::List);
    assert!(app.browser.is_none());
}

#[test]
fn popup_path_goes_through_a_directory_check() {
    let mut app = App::new(config());
    app.start_browsing("/x".to_string(), Vec::new());
    app.handle_key(Key::Char('/'));
    for c in " /y ".chars() {
        app.handle_key(Key::Char(c));
    }
    assert!(matches!(app.handle_key(Key::Enter), Effect::CheckDirectory));
    assert_eq!(app.popup_path(), Some("/y".to_string()));
    assert!(is_idle(&app.confirm_popup_path(false)));
    assert!(matches!(app.confirm_popup_path(true), Effect::ListDirectory));
    assert_eq!(app.browser.as_ref().unwrap().current_dir, "/y");
    assert!(app.popup_path().is_none());
}

#[test]
fn ctrl_c_quits_even_while_typing() {
    let mut app = App::new(config());
    app.start_browsing("/x".to_string(), Vec::new());
    app.handle_key(Key::Char('s'));
    app.handle_key_event(Key::Char('c'), false);
    assert!(!app.should_quit);
    assert_eq!(app.naming_input, "c");
    app.handle_key_event(Key::Char('c'), true);
    assert!(app.should_quit);
}

#[test]
fn a_name_of_any_whitespace_is_not_saved() {
    let mut app = App::new(config());
    app.start_browsing("/x".to_string(), Vec::new());
    app.handle_key(Key::Char('s'));
    for c in "\t \u{3000}\u{a0}".chars() {
        app.handle_key(Key::Char(c));
    }
    assert!(is_idle(&app.handle_key(Key::Enter)));
    assert_eq!(app.home_mode, HomeMode::Naming);
    assert_eq!(app.config.playlists.len(), 2);
}

#[test]
fn batches_of_updates_fold_the_same_split_or_whole() {
    let updates = || {
        vec![
            PlayerStatus::Finished,
            PlayerStatus::Paused { position: TimeSpan::new(1, 0) },
            PlayerStatus::Finished,
        ]
    };
    let mut whole = playing_app(3);
    let mut split = playing_app(3);
    let a = whole.poll_player(updates());
    let mut rest = updates();
    let tail = rest.split_off(1);
    let mut b = split.poll_player(rest);
    b.extend(split.poll_player(tail));
    assert_eq!(a, b);
    assert_eq!(whole.now_playing_index, split.now_playing_index);
    assert_eq!(whole.position, split.position);
    assert!(split.poll_player(Vec::new()).is_empty());
    assert_eq!(whole.now_playing_index, split.now_playing_index);
}
