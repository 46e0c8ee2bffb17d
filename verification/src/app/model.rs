use vstd::prelude::*;

use super::{
    next_repeat, retreated, AppView, EffectView, HomeMode, Key, PlaybackState, RepeatMode,
    Screen,
};
use crate::browser::{confirmed, entered, erased, moved_down, moved_up, typed, went_up, BrowserView};
use crate::config::EntryView;
use crate::player::{zero_span, CommandView, StatusView};
use crate::text::trimmed;

verus! {

/// Starts the track at `index` of the open playlist, when there is one:
/// it becomes the track now playing and the player is told to play it.
pub open spec fn play_at(v: AppView, index: int) -> (AppView, Option<CommandView>) {
    match v.current_playlist {
        Some(p) => if 0 <= index < p.tracks.len() {
            (
                AppView { now_playing_index: Some(index as usize), ..v },
                Some(CommandView::Play(p.tracks[index].path)),
            )
        } else {
            (v, None)
        },
        None => (v, None),
    }
}

/// The shuffle pick out of `len` tracks from the clock's sub-second
/// nanoseconds: the nanoseconds modulo `len`, moved one on (cyclically)
/// when that is the track now playing; 0 when there is at most one track.
pub open spec fn shuffle_pick(nanos: u32, len: nat, now_playing: Option<usize>) -> nat {
    if len <= 1 {
        0
    } else {
        let index = (nanos as nat) % len;
        if now_playing == Some(index as usize) {
            (index + 1) % len
        } else {
            index
        }
    }
}

/// The number of tracks of the open playlist, 0 when none is open.
pub open spec fn track_count(v: AppView) -> nat {
    match v.current_playlist {
        Some(p) => p.tracks.len(),
        None => 0,
    }
}

/// Skipping forward: a shuffle pick when shuffling; else the next track,
/// wrapping to the first under repeat-all, or stopping (nothing playing)
/// after the last track; the first track when nothing was playing.
pub open spec fn next_track(v: AppView, nanos: u32) -> (AppView, Option<CommandView>) {
    let len = track_count(v);
    if len == 0 {
        (v, None)
    } else if v.shuffle {
        play_at(v, shuffle_pick(nanos, len, v.now_playing_index) as int)
    } else {
        match v.now_playing_index {
            Some(i) => if i + 1 < len {
                play_at(v, i + 1)
            } else if v.repeat_mode == RepeatMode::All {
                play_at(v, 0)
            } else {
                (AppView { now_playing_index: None, ..v }, None)
            },
            None => play_at(v, 0),
        }
    }
}

/// Skipping back: a shuffle pick when shuffling; else the previous track,
/// wrapping to the last under repeat-all, staying at the first otherwise.
pub open spec fn previous_track(v: AppView, nanos: u32) -> (AppView, Option<CommandView>) {
    let len = track_count(v);
    if len == 0 {
        (v, None)
    } else if v.shuffle {
        play_at(v, shuffle_pick(nanos, len, v.now_playing_index) as int)
    } else {
        match v.now_playing_index {
            Some(i) => if i == 0 {
                if v.repeat_mode == RepeatMode::All {
                    play_at(v, len - 1)
                } else {
                    play_at(v, 0)
                }
            } else {
                play_at(v, i - 1)
            },
            None => play_at(v, 0),
        }
    }
}

/// When a track ends on its own: repeat-one replays it, otherwise playback
/// skips forward.
pub open spec fn finished_track(v: AppView, nanos: u32) -> (AppView, Option<CommandView>) {
    match v.now_playing_index {
        Some(i) => if v.repeat_mode == RepeatMode::One {
            play_at(v, i as int)
        } else {
            next_track(v, nanos)
        },
        None => next_track(v, nanos),
    }
}

/// The command of the play/pause button: pause when playing, resume when
/// paused, nothing when stopped.
pub open spec fn pause_command(v: AppView) -> Option<CommandView> {
    match v.playback_state {
        PlaybackState::Playing => Some(CommandView::Pause),
        PlaybackState::Paused => Some(CommandView::Resume),
        PlaybackState::Stopped => None,
    }
}

/// Folding one status update from the player thread into the state.
pub open spec fn status_step(v: AppView, s: StatusView, nanos: u32) -> (AppView, Option<CommandView>) {
    match s {
        StatusView::Playing { path, position } => (
            AppView { playback_state: PlaybackState::Playing, position, ..v },
            None,
        ),
        StatusView::Paused { position } => (
            AppView { playback_state: PlaybackState::Paused, position, ..v },
            None,
        ),
        StatusView::Stopped => (
            AppView {
                playback_state: PlaybackState::Stopped,
                now_playing_index: None,
                position: zero_span(),
                ..v
            },
            None,
        ),
        StatusView::Finished => finished_track(
            AppView { playback_state: PlaybackState::Stopped, position: zero_span(), ..v },
            nanos,
        ),
        StatusView::Error(message) => (
            AppView { status_message: Some(message), playback_state: PlaybackState::Stopped, ..v },
            None,
        ),
    }
}

/// Appends a command, if any, to a list of commands.
pub open spec fn push_command(cmds: Seq<CommandView>, c: Option<CommandView>) -> Seq<CommandView> {
    match c {
        Some(c) => cmds.push(c),
        None => cmds,
    }
}

/// Folding a batch of status updates, in order, with one clock reading per
/// update; the commands are those the updates asked for, in order.
pub open spec fn poll_steps(v: AppView, statuses: Seq<StatusView>, picks: Seq<u32>) -> (
    AppView,
    Seq<CommandView>,
)
    decreases statuses.len(),
{
    if statuses.len() == 0 || picks.len() == 0 {
        (v, Seq::empty())
    } else {
        let (w, cmds) = poll_steps(v, statuses.drop_last(), picks.drop_last());
        let (x, c) = status_step(w, statuses.last(), picks.last());
        (x, push_command(cmds, c))
    }
}

/// Whether moving the track highlight by `delta` keeps clear of the
/// arithmetic limits of the signed 32-bit computation it is done in.
pub open spec fn move_ok(v: AppView, delta: i32) -> bool {
    let len = track_count(v);
    len > 0 ==> {
        &&& (len as i32) >= 1
        &&& i32::MIN <= (v.track_selected as i32) + delta <= i32::MAX
    }
}

/// Moves the track highlight by `delta`, clamped to the playlist, in signed
/// 32-bit arithmetic.
pub open spec fn move_selection(v: AppView, delta: i32) -> AppView {
    let len = track_count(v);
    if len == 0 {
        v
    } else {
        let last = (len as i32) - 1;
        let target = (v.track_selected as i32) + delta;
        let next = if target < 0 {
            0
        } else if target > last {
            last
        } else {
            target
        };
        AppView { track_selected: next as usize, ..v }
    }
}

/// Lifts a player command into an effect.
pub open spec fn effect_of(c: Option<CommandView>) -> EffectView {
    match c {
        Some(c) => EffectView::Player(c),
        None => EffectView::Idle,
    }
}

/// Lifts a state and command into a state and effect.
pub open spec fn with_effect(r: (AppView, Option<CommandView>)) -> (AppView, EffectView) {
    (r.0, effect_of(r.1))
}

/// Keys on the playlist and cinema screens.
pub open spec fn playback_key(v: AppView, key: Key, nanos: u32) -> (AppView, EffectView) {
    match key {
        Key::Char(c) => if c == 'q' {
            (AppView { should_quit: true, ..v }, EffectView::Idle)
        } else if c == 'b' {
            (AppView { sidebar_open: !v.sidebar_open, ..v }, EffectView::Idle)
        } else if c == 'j' {
            (move_selection(v, 1i32), EffectView::Idle)
        } else if c == 'k' {
            (move_selection(v, -1i32), EffectView::Idle)
        } else if c == ' ' {
            (v, effect_of(pause_command(v)))
        } else if c == 'n' {
            with_effect(next_track(v, nanos))
        } else if c == 'p' {
            with_effect(previous_track(v, nanos))
        } else if c == 's' {
            (AppView { shuffle: !v.shuffle, ..v }, EffectView::Idle)
        } else if c == 'r' {
            (AppView { repeat_mode: next_repeat(v.repeat_mode), ..v }, EffectView::Idle)
        } else {
            (v, EffectView::Idle)
        },
        Key::Down => (move_selection(v, 1i32), EffectView::Idle),
        Key::Up => (move_selection(v, -1i32), EffectView::Idle),
        Key::Enter => with_effect(play_at(v, v.track_selected as int)),
        Key::Esc => (AppView { screen: retreated(v.screen), ..v }, EffectView::Idle),
        _ => (v, EffectView::Idle),
    }
}

/// The playlist highlight one down, stopping at the last playlist.
pub open spec fn home_down(v: AppView) -> AppView {
    if v.playlists.len() == 0 {
        v
    } else {
        AppView {
            home_selected: (if v.home_selected + 1 < v.playlists.len() {
                v.home_selected + 1
            } else {
                v.playlists.len() - 1
            }) as usize,
            ..v
        }
    }
}

/// The playlist highlight one up, stopping at the first.
pub open spec fn home_up(v: AppView) -> AppView {
    AppView {
        home_selected: (if v.home_selected > 0 { v.home_selected - 1 } else { 0 }) as usize,
        ..v
    }
}

/// Keys on the home screen's playlist list.
pub open spec fn home_list_key(v: AppView, key: Key) -> (AppView, EffectView) {
    match key {
        Key::Char(c) => if c == 'n' {
            (v, EffectView::BrowseHome)
        } else if c == 'j' {
            (home_down(v), EffectView::Idle)
        } else if c == 'k' {
            (home_up(v), EffectView::Idle)
        } else {
            (v, EffectView::Idle)
        },
        Key::Down => (home_down(v), EffectView::Idle),
        Key::Up => (home_up(v), EffectView::Idle),
        Key::Enter => if v.home_selected < v.playlists.len() {
            (v, EffectView::ScanPlaylist(v.home_selected))
        } else {
            (v, EffectView::Idle)
        },
        _ => (v, EffectView::Idle),
    }
}

/// The state with a new browser state.
pub open spec fn with_browser(v: AppView, b: BrowserView) -> AppView {
    AppView { browser: Some(b), ..v }
}

/// A browser change that may ask for a new listing.
pub open spec fn relisted(v: AppView, r: (BrowserView, bool)) -> (AppView, EffectView) {
    (
        with_browser(v, r.0),
        if r.1 {
            EffectView::ListDirectory
        } else {
            EffectView::Idle
        },
    )
}

/// Keys while browsing for a folder; while the `/` popup is open they edit
/// or confirm the typed path.
pub open spec fn browsing_key(v: AppView, key: Key) -> (AppView, EffectView) {
    match v.browser {
        None => (v, EffectView::Idle),
        Some(b) => if b.popup is Some {
            match key {
                Key::Esc => (with_browser(v, BrowserView { popup: None, ..b }), EffectView::Idle),
                Key::Enter => (v, EffectView::CheckDirectory),
                Key::Backspace => (with_browser(v, erased(b)), EffectView::Idle),
                Key::Char(c) => (with_browser(v, typed(b, c)), EffectView::Idle),
                _ => (v, EffectView::Idle),
            }
        } else {
            match key {
                Key::Esc => (
                    AppView { browser: None, home_mode: HomeMode::List, ..v },
                    EffectView::Idle,
                ),
                Key::Down => (with_browser(v, moved_down(b)), EffectView::Idle),
                Key::Up => (with_browser(v, moved_up(b)), EffectView::Idle),
                Key::Enter => relisted(v, entered(b)),
                Key::Backspace => relisted(v, went_up(b)),
                Key::Char(c) => if c == 'j' {
                    (with_browser(v, moved_down(b)), EffectView::Idle)
                } else if c == 'k' {
                    (with_browser(v, moved_up(b)), EffectView::Idle)
                } else if c == 'l' {
                    relisted(v, entered(b))
                } else if c == 'h' {
                    relisted(v, went_up(b))
                } else if c == '/' {
                    (with_browser(v, BrowserView { popup: Some(Seq::empty()), ..b }), EffectView::Idle)
                } else if c == 's' {
                    (
                        AppView { naming_input: Seq::empty(), home_mode: HomeMode::Naming, ..v },
                        EffectView::Idle,
                    )
                } else {
                    (v, EffectView::Idle)
                },
                _ => (v, EffectView::Idle),
            }
        },
    }
}

/// Keys while naming the chosen folder: editing the name, going back to
/// browsing, or saving the folder as a playlist under the trimmed name.
pub open spec fn naming_key(v: AppView, key: Key) -> (AppView, EffectView) {
    match key {
        Key::Esc => (AppView { home_mode: HomeMode::Browsing, ..v }, EffectView::Idle),
        Key::Backspace => (
            AppView {
                naming_input: if v.naming_input.len() > 0 {
                    v.naming_input.drop_last()
                } else {
                    v.naming_input
                },
                ..v
            },
            EffectView::Idle,
        ),
        Key::Char(c) => (AppView { naming_input: v.naming_input.push(c), ..v }, EffectView::Idle),
        Key::Enter => if trimmed(v.naming_input).len() > 0 {
            let closed = AppView {
                browser: None,
                naming_input: Seq::empty(),
                home_mode: HomeMode::List,
                ..v
            };
            match v.browser {
                Some(b) => (
                    AppView {
                        playlists: v.playlists.push(
                            EntryView { name: trimmed(v.naming_input), path: b.current_dir },
                        ),
                        ..closed
                    },
                    EffectView::SaveConfig,
                ),
                None => (closed, EffectView::Idle),
            }
        } else {
            (v, EffectView::Idle)
        },
        _ => (v, EffectView::Idle),
    }
}

/// Keys on the home screen, by mode.
pub open spec fn home_key(v: AppView, key: Key) -> (AppView, EffectView) {
    match v.home_mode {
        HomeMode::List => home_list_key(v, key),
        HomeMode::Browsing => browsing_key(v, key),
        HomeMode::Naming => naming_key(v, key),
    }
}

/// One key press: `q` quits while the home screen lists playlists; other
/// keys go to the screen on show.
pub open spec fn key_step(v: AppView, key: Key, nanos: u32) -> (AppView, EffectView) {
    if key == Key::Char('q') && v.home_mode == HomeMode::List {
        (AppView { should_quit: true, ..v }, EffectView::Idle)
    } else {
        match v.screen {
            Screen::Home => home_key(v, key),
            _ => playback_key(v, key, nanos),
        }
    }
}

/// Whether a key press keeps clear of the arithmetic limits of moving the
/// track highlight.
pub open spec fn key_ok(v: AppView, key: Key) -> bool {
    (v.screen != Screen::Home && !(key == Key::Char('q') && v.home_mode == HomeMode::List)) ==> {
        &&& (key == Key::Down || key == Key::Char('j')) ==> move_ok(v, 1i32)
        &&& (key == Key::Up || key == Key::Char('k')) ==> move_ok(v, -1i32)
    }
}

/// A key press with the state of the control key: Ctrl+C quits from
/// anywhere, text entry included; anything else is an ordinary key.
pub open spec fn key_event_step(v: AppView, key: Key, ctrl: bool, nanos: u32) -> (AppView, EffectView) {
    if key == Key::Char('c') && ctrl {
        (AppView { should_quit: true, ..v }, EffectView::Idle)
    } else {
        key_step(v, key, nanos)
    }
}

/// A click on one of the bottom bar's buttons.
pub open spec fn control_step(v: AppView, b: super::ControlButton, nanos: u32) -> (
    AppView,
    Option<CommandView>,
) {
    match b {
        super::ControlButton::Prev => previous_track(v, nanos),
        super::ControlButton::PlayPause => (v, pause_command(v)),
        super::ControlButton::Next => next_track(v, nanos),
        super::ControlButton::Shuffle => (AppView { shuffle: !v.shuffle, ..v }, None),
        super::ControlButton::Repeat => (AppView { repeat_mode: next_repeat(v.repeat_mode), ..v }, None),
    }
}

/// Scrolling moves the track highlight on the playlist and cinema screens.
pub open spec fn scroll_step(v: AppView, delta: i32) -> AppView {
    match v.screen {
        Screen::Home => v,
        _ => move_selection(v, delta),
    }
}

} // verus!

verus! {

/// Confirming the browser's popup inside the app state.
pub open spec fn confirmed_in(v: AppView, target_is_dir: bool) -> (AppView, EffectView) {
    match v.browser {
        Some(b) => relisted(v, confirmed(b, target_is_dir)),
        None => (v, EffectView::Idle),
    }
}

} // verus!
