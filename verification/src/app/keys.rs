use vstd::prelude::*;

use super::model::{
    browsing_key, confirmed_in, control_step, effect_of, home_key, home_list_key, key_event_step,
    key_ok, key_step, move_ok, naming_key, next_track, playback_key, previous_track,
};
use super::playback::command_view;
use super::{ActivePlaylist, App, AppView, ControlButton, Effect, HomeMode, Key, PlaylistView, Screen};
use crate::browser::{sorts, BrowserState, DirEntryItem};
use crate::library::{tracks_view, Track};
use crate::player::PlayerCommand;
use crate::text::{pop_char, push_char, trim_str, trimmed};
use crate::timing::NANOS_PER_SEC;

verus! {

/// The effect carrying an optional player command.
fn effect_from(c: Option<PlayerCommand>) -> (e: Effect)
    ensures
        e@ == effect_of(command_view(c)),
{
    match c {
        Some(c) => Effect::Player(c),
        None => Effect::Idle,
    }
}

/// The message shown when the settings could not be saved.
pub open spec fn save_failed_message(error: Seq<char>) -> Seq<char> {
    "save failed: "@ + error
}

impl App {
    /// Whether moving the track highlight by `delta` keeps clear of the
    /// limits of signed 32-bit arithmetic.
    pub fn can_move_selection(&self, delta: i32) -> (r: bool)
        ensures
            r == move_ok(self@, delta),
    {
        let len = match &self.current_playlist {
            Some(p) => p.tracks.len(),
            None => 0,
        };
        if len == 0 {
            return true;
        }
        #[verifier::truncate]
        let last: i32 = len as i32;
        #[verifier::truncate]
        let sel: i32 = self.track_selected as i32;
        let target: i64 = sel as i64 + delta as i64;
        last >= 1 && i32::MIN as i64 <= target && target <= i32::MAX as i64
    }

    /// Whether handling `key` keeps clear of the limits of moving the track
    /// highlight (the condition of `handle_key`).
    pub fn can_handle_key(&self, key: Key) -> (r: bool)
        ensures
            r == key_ok(self@, key),
    {
        if self.screen == Screen::Home || (key == Key::Char('q') && self.home_mode == HomeMode::List) {
            return true;
        }
        let down = key == Key::Down || key == Key::Char('j');
        let up = key == Key::Up || key == Key::Char('k');
        (!down || self.can_move_selection(1)) && (!up || self.can_move_selection(-1))
    }

    /// Keys on the playlist and cinema screens.
    pub fn handle_playback_screen_key(&mut self, key: Key) -> (r: Effect)
        requires
            (key == Key::Down || key == Key::Char('j')) ==> move_ok(old(self)@, 1i32),
            (key == Key::Up || key == Key::Char('k')) ==> move_ok(old(self)@, -1i32),
        ensures
            exists|n: u32|
                n < NANOS_PER_SEC && #[trigger] playback_key(old(self)@, key, n) == (final(self)@, r@),
    {
        match key {
            Key::Char(c) => {
                if c == 'q' {
                    self.should_quit = true;
                } else if c == 'b' {
                    self.sidebar_open = !self.sidebar_open;
                } else if c == 'j' {
                    self.move_track_selection(1);
                } else if c == 'k' {
                    self.move_track_selection(-1);
                } else if c == ' ' {
                    let r = effect_from(self.toggle_pause());
                    assert(playback_key(old(self)@, key, 0) == (self@, r@));
                    return r;
                } else if c == 'n' {
                    let cmd = self.advance_to_next_track();
                    let ghost n = choose|n: u32|
                        n < NANOS_PER_SEC && next_track(old(self)@, n) == (self@, command_view(cmd));
                    let r = effect_from(cmd);
                    assert(playback_key(old(self)@, key, n) == (self@, r@));
                    return r;
                } else if c == 'p' {
                    let cmd = self.play_previous_track();
                    let ghost n = choose|n: u32|
                        n < NANOS_PER_SEC && previous_track(old(self)@, n) == (self@, command_view(cmd));
                    let r = effect_from(cmd);
                    assert(playback_key(old(self)@, key, n) == (self@, r@));
                    return r;
                } else if c == 's' {
                    self.toggle_shuffle();
                } else if c == 'r' {
                    self.cycle_repeat();
                }
            },
            Key::Down => self.move_track_selection(1),
            Key::Up => self.move_track_selection(-1),
            Key::Enter => {
                let r = effect_from(self.play_selected_track());
                assert(playback_key(old(self)@, key, 0) == (self@, r@));
                return r;
            },
            Key::Esc => self.retreat_screen(),
            _ => {},
        }
        assert(playback_key(old(self)@, key, 0) == (self@, Effect::Idle@));
        Effect::Idle
    }

    /// Keys on the home screen's playlist list.
    pub fn handle_home_list_key(&mut self, key: Key) -> (r: Effect)
        ensures
            (final(self)@, r@) == home_list_key(old(self)@, key),
    {
        let len = self.config.playlists.len();
        let down = key == Key::Down || key == Key::Char('j');
        let up = key == Key::Up || key == Key::Char('k');
        if key == Key::Char('n') {
            Effect::BrowseHome
        } else if down {
            if len > 0 {
                self.home_selected = if self.home_selected < len - 1 {
                    self.home_selected + 1
                } else {
                    len - 1
                };
            }
            Effect::Idle
        } else if up {
            self.home_selected = if self.home_selected > 0 {
                self.home_selected - 1
            } else {
                0
            };
            Effect::Idle
        } else if key == Key::Enter {
            if self.home_selected < len {
                Effect::ScanPlaylist(self.home_selected)
            } else {
                Effect::Idle
            }
        } else {
            Effect::Idle
        }
    }

    /// Keys while browsing for a folder.
    pub fn handle_browsing_key(&mut self, key: Key) -> (r: Effect)
        ensures
            (final(self)@, r@) == browsing_key(old(self)@, key),
    {
        let has_popup = match &self.browser {
            None => {
                return Effect::Idle;
            },
            Some(b) => b.popup.is_some(),
        };
        if has_popup {
            match key {
                Key::Esc => {
                    if let Some(b) = &mut self.browser {
                        b.close_popup();
                    }
                    Effect::Idle
                },
                Key::Enter => Effect::CheckDirectory,
                Key::Backspace => {
                    if let Some(b) = &mut self.browser {
                        b.popup_backspace();
                    }
                    Effect::Idle
                },
                Key::Char(c) => {
                    if let Some(b) = &mut self.browser {
                        b.popup_push_char(c);
                    }
                    Effect::Idle
                },
                _ => Effect::Idle,
            }
        } else if key == Key::Esc {
            self.browser = None;
            self.home_mode = HomeMode::List;
            Effect::Idle
        } else if key == Key::Down || key == Key::Char('j') {
            if let Some(b) = &mut self.browser {
                b.move_down();
            }
            Effect::Idle
        } else if key == Key::Up || key == Key::Char('k') {
            if let Some(b) = &mut self.browser {
                b.move_up();
            }
            Effect::Idle
        } else if key == Key::Enter || key == Key::Char('l') {
            let mut changed = false;
            if let Some(b) = &mut self.browser {
                changed = b.enter_selected();
            }
            if changed {
                Effect::ListDirectory
            } else {
                Effect::Idle
            }
        } else if key == Key::Backspace || key == Key::Char('h') {
            let mut changed = false;
            if let Some(b) = &mut self.browser {
                changed = b.go_to_parent();
            }
            if changed {
                Effect::ListDirectory
            } else {
                Effect::Idle
            }
        } else if key == Key::Char('/') {
            if let Some(b) = &mut self.browser {
                b.open_popup();
            }
            Effect::Idle
        } else if key == Key::Char('s') {
            self.naming_input = String::new();
            self.home_mode = HomeMode::Naming;
            Effect::Idle
        } else {
            Effect::Idle
        }
    }

    /// Keys while naming the chosen folder.
    pub fn handle_naming_key(&mut self, key: Key) -> (r: Effect)
        ensures
            (final(self)@, r@) == naming_key(old(self)@, key),
    {
        match key {
            Key::Esc => {
                self.home_mode = HomeMode::Browsing;
                Effect::Idle
            },
            Key::Backspace => {
                let _ = pop_char(&mut self.naming_input);
                Effect::Idle
            },
            Key::Char(c) => {
                push_char(&mut self.naming_input, c);
                Effect::Idle
            },
            Key::Enter => {
                let name = trim_str(self.naming_input.as_str());
                if name.as_str().is_empty() {
                    return Effect::Idle;
                }
                let effect = match &self.browser {
                    Some(b) => {
                        let path = b.current_dir.clone();
                        self.config.add_playlist(name, path);
                        Effect::SaveConfig
                    },
                    None => Effect::Idle,
                };
                self.browser = None;
                self.naming_input = String::new();
                self.home_mode = HomeMode::List;
                effect
            },
            _ => Effect::Idle,
        }
    }

    /// Keys on the home screen, by mode.
    pub fn handle_home_key(&mut self, key: Key) -> (r: Effect)
        ensures
            (final(self)@, r@) == home_key(old(self)@, key),
    {
        match self.home_mode {
            HomeMode::List => self.handle_home_list_key(key),
            HomeMode::Browsing => self.handle_browsing_key(key),
            HomeMode::Naming => self.handle_naming_key(key),
        }
    }

    /// One key press: `q` quits while the home screen lists playlists;
    /// other keys go to the screen on show.
    pub fn handle_key(&mut self, key: Key) -> (r: Effect)
        requires
            key_ok(old(self)@, key),
        ensures
            exists|n: u32| n < NANOS_PER_SEC && #[trigger] key_step(old(self)@, key, n) == (final(self)@, r@),
    {
        if key == Key::Char('q') && self.home_mode == HomeMode::List {
            self.should_quit = true;
            assert(key_step(old(self)@, key, 0) == (self@, Effect::Idle@));
            return Effect::Idle;
        }
        match self.screen {
            Screen::Home => {
                let r = self.handle_home_key(key);
                assert(key_step(old(self)@, key, 0) == (self@, r@));
                r
            },
            _ => {
                let r = self.handle_playback_screen_key(key);
                let ghost n = choose|n: u32| n < NANOS_PER_SEC && playback_key(old(self)@, key, n) == (self@, r@);
                assert(key_step(old(self)@, key, n) == (self@, r@));
                r
            },
        }
    }

    /// A key press together with whether the control key is held: Ctrl+C
    /// quits from anywhere, including text-entry modes (naming a playlist,
    /// typing a path) where `q` is just a regular character.
    pub fn handle_key_event(&mut self, key: Key, ctrl: bool) -> (r: Effect)
        requires
            key_ok(old(self)@, key),
        ensures
            exists|n: u32|
                n < NANOS_PER_SEC && #[trigger] key_event_step(old(self)@, key, ctrl, n) == (final(self)@, r@),
    {
        if key == Key::Char('c') && ctrl {
            self.should_quit = true;
            assert(key_event_step(old(self)@, key, ctrl, 0) == (self@, Effect::Idle@));
            return Effect::Idle;
        }
        let r = self.handle_key(key);
        let ghost n = choose|n: u32| n < NANOS_PER_SEC && key_step(old(self)@, key, n) == (self@, r@);
        assert(key_event_step(old(self)@, key, ctrl, n) == (self@, r@));
        r
    }

    /// Starts browsing at `start_dir`, whose listing was read as `listing`
    /// (after `Effect::BrowseHome`).
    pub fn start_browsing(&mut self, start_dir: String, listing: Vec<DirEntryItem>)
        ensures
            final(self).browser matches Some(b) && b.current_dir@ == start_dir@ && sorts(
                b.entries@,
                listing@,
            ) && b.selected == 0 && b.popup is None,
            final(self)@ == (AppView {
                browser: final(self)@.browser,
                home_mode: HomeMode::Browsing,
                ..old(self)@
            }),
    {
        self.browser = Some(BrowserState::new(start_dir, listing));
        self.home_mode = HomeMode::Browsing;
    }

    /// Hands the browser a fresh listing of its current directory (after
    /// `Effect::ListDirectory`).
    pub fn browser_listed(&mut self, listing: Vec<DirEntryItem>)
        ensures
            old(self).browser is None ==> final(self)@ == old(self)@,
            old(self).browser matches Some(ob) ==> final(self).browser matches Some(b) && b.current_dir
                == ob.current_dir && sorts(b.entries@, listing@) && b.selected == 0 && b.popup
                == ob.popup,
            final(self)@ == (AppView { browser: final(self)@.browser, ..old(self)@ }),
    {
        if let Some(b) = &mut self.browser {
            b.refresh(listing);
        }
    }

    /// The path typed into the browser's popup, trimmed, when the popup is
    /// open: the path `Effect::CheckDirectory` asks about.
    pub fn popup_path(&self) -> (r: Option<String>)
        ensures
            match self@.browser {
                Some(b) => match b.popup {
                    Some(input) => r matches Some(t) && t@ == trimmed(input),
                    None => r is None,
                },
                None => r is None,
            },
    {
        match &self.browser {
            Some(b) => b.popup_target(),
            None => None,
        }
    }

    /// Confirms the browser's popup, given whether its path is a directory
    /// (after `Effect::CheckDirectory`).
    pub fn confirm_popup_path(&mut self, target_is_dir: bool) -> (r: Effect)
        ensures
            (final(self)@, r@) == confirmed_in(old(self)@, target_is_dir),
    {
        let mut changed = false;
        if let Some(b) = &mut self.browser {
            changed = b.popup_confirm(target_is_dir);
        }
        if changed {
            Effect::ListDirectory
        } else {
            Effect::Idle
        }
    }

    /// Opens the saved playlist at `index`, whose folder was scanned into
    /// `tracks` (after `Effect::ScanPlaylist`).
    pub fn open_playlist(&mut self, index: usize, tracks: Vec<Track>)
        ensures
            final(self)@ == if index < old(self)@.playlists.len() {
                AppView {
                    current_playlist: Some(
                        PlaylistView {
                            name: old(self)@.playlists[index as int].name,
                            path: old(self)@.playlists[index as int].path,
                            tracks: tracks_view(tracks@),
                        },
                    ),
                    track_selected: 0,
                    screen: Screen::Playlist,
                    ..old(self)@
                }
            } else {
                old(self)@
            },
    {
        if index < self.config.playlists.len() {
            let entry = &self.config.playlists[index];
            let name = entry.name.clone();
            let path = entry.path.clone();
            self.current_playlist = Some(ActivePlaylist { name, path, tracks });
            self.track_selected = 0;
            self.screen = Screen::Playlist;
        }
    }

    /// Records how saving the settings went (after `Effect::SaveConfig`):
    /// clears the status line, or shows the error.
    pub fn config_saved(&mut self, error: Option<String>)
        ensures
            final(self)@ == (AppView {
                status_message: match error {
                    Some(e) => Some(save_failed_message(e@)),
                    None => None,
                },
                ..old(self)@
            }),
    {
        match error {
            Some(e) => {
                let mut message = String::from_str("save failed: ");
                message.append(e.as_str());
                self.status_message = Some(message);
            },
            None => {
                self.status_message = None;
            },
        }
    }
}

impl ControlButton {
    /// What a click on the button does; the same as its key on the playlist
    /// and cinema screens.
    pub fn activate(self, app: &mut App) -> (r: Option<PlayerCommand>)
        ensures
            exists|n: u32|
                n < NANOS_PER_SEC && #[trigger] control_step(old(app)@, self, n) == (final(app)@, command_view(r)),
    {
        match self {
            ControlButton::Prev => {
                let r = app.play_previous_track();
                let ghost n = choose|n: u32|
                    n < NANOS_PER_SEC && previous_track(old(app)@, n) == (app@, command_view(r));
                assert(control_step(old(app)@, self, n) == (app@, command_view(r)));
                r
            },
            ControlButton::PlayPause => {
                let r = app.toggle_pause();
                assert(control_step(old(app)@, self, 0) == (app@, command_view(r)));
                r
            },
            ControlButton::Next => {
                let r = app.advance_to_next_track();
                let ghost n = choose|n: u32|
                    n < NANOS_PER_SEC && next_track(old(app)@, n) == (app@, command_view(r));
                assert(control_step(old(app)@, self, n) == (app@, command_view(r)));
                r
            },
            ControlButton::Shuffle => {
                app.toggle_shuffle();
                assert(control_step(old(app)@, self, 0) == (app@, command_view(None)));
                None
            },
            ControlButton::Repeat => {
                app.cycle_repeat();
                assert(control_step(old(app)@, self, 0) == (app@, command_view(None)));
                None
            },
        }
    }
}

} // verus!
