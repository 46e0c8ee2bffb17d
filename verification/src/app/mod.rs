pub mod model;
pub mod playback;
pub mod keys;
pub mod laws;

use vstd::prelude::*;

use crate::browser::{BrowserState, BrowserView};
use crate::config::{Config, EntryView};
use crate::library::{tracks_view, Track, TrackView};
use crate::player::{CommandView, PlayerCommand};
use crate::timing::TimeSpan;

verus! {

/// The screen on show.
#[derive(Debug, Clone, Copy, PartialEq, Eq, Structural)]
pub enum Screen {
    Home,
    Playlist,
    Cinema,
}

/// What the home screen is doing: listing playlists, browsing for a folder,
/// or naming the folder as a new playlist.
#[derive(Debug, Clone, Copy, PartialEq, Eq, Structural)]
pub enum HomeMode {
    List,
    Browsing,
    Naming,
}

/// Transport state for whatever is currently loaded in the player thread.
#[derive(Debug, Clone, Copy, PartialEq, Eq, Structural)]
pub enum PlaybackState {
    Stopped,
    Playing,
    Paused,
}

#[derive(Debug, Clone, Copy, PartialEq, Eq, Structural)]
pub enum RepeatMode {
    Off,
    All,
    One,
}

/// One of the five icon buttons on the persistent bottom bar. Shared between
/// keyboard handling and mouse click hit-testing so both paths trigger the
/// exact same behavior.
#[derive(Debug, Clone, Copy, PartialEq, Eq, Structural)]
pub enum ControlButton {
    Prev,
    PlayPause,
    Next,
    Shuffle,
    Repeat,
}

/// A key press, as far as the player tells keys apart.
#[derive(Debug, Clone, Copy, PartialEq, Eq, Structural)]
pub enum Key {
    Char(char),
    Up,
    Down,
    Enter,
    Esc,
    Backspace,
    Other,
}

/// The next mode of the repeat button.
pub open spec fn next_repeat(m: RepeatMode) -> RepeatMode {
    match m {
        RepeatMode::Off => RepeatMode::All,
        RepeatMode::All => RepeatMode::One,
        RepeatMode::One => RepeatMode::Off,
    }
}

impl RepeatMode {
    /// Off, then repeat all, then repeat one, then off again.
    pub fn cycle(self) -> (r: RepeatMode)
        ensures
            r == next_repeat(self),
    {
        match self {
            RepeatMode::Off => RepeatMode::All,
            RepeatMode::All => RepeatMode::One,
            RepeatMode::One => RepeatMode::Off,
        }
    }
}

/// The screen one step deeper: home, then playlist, then cinema.
pub open spec fn advanced(s: Screen) -> Screen {
    match s {
        Screen::Home => Screen::Playlist,
        Screen::Playlist => Screen::Cinema,
        Screen::Cinema => Screen::Cinema,
    }
}

/// The screen one step back.
pub open spec fn retreated(s: Screen) -> Screen {
    match s {
        Screen::Home => Screen::Home,
        Screen::Playlist => Screen::Home,
        Screen::Cinema => Screen::Playlist,
    }
}

/// The playlist that is open: its name, folder and tracks.
pub struct ActivePlaylist {
    pub name: String,
    pub path: String,
    pub tracks: Vec<Track>,
}

/// An open playlist with its strings as characters.
pub struct PlaylistView {
    pub name: Seq<char>,
    pub path: Seq<char>,
    pub tracks: Seq<TrackView>,
}

impl View for ActivePlaylist {
    type V = PlaylistView;

    open spec fn view(&self) -> PlaylistView {
        PlaylistView { name: self.name@, path: self.path@, tracks: tracks_view(self.tracks@) }
    }
}

/// What the interface asks of its surroundings after a key or an update:
/// nothing, a command for the player thread, or a piece of input and output
/// whose outcome is handed back (`App::start_browsing`,
/// `App::browser_listed`, `App::open_playlist`, `App::confirm_popup_path`,
/// `App::config_saved`).
pub enum Effect {
    /// Nothing to do.
    Idle,
    Player(PlayerCommand),
    /// Start browsing at the home directory.
    BrowseHome,
    /// Read the listing of the browser's current directory.
    ListDirectory,
    /// Scan the folder of the saved playlist at this position.
    ScanPlaylist(usize),
    /// Tell whether the path typed into the browser's popup is a directory.
    CheckDirectory,
    /// Save the settings.
    SaveConfig,
}

/// An effect with its command as a view.
pub enum EffectView {
    Idle,
    Player(CommandView),
    BrowseHome,
    ListDirectory,
    ScanPlaylist(usize),
    CheckDirectory,
    SaveConfig,
}

impl View for Effect {
    type V = EffectView;

    open spec fn view(&self) -> EffectView {
        match self {
            Effect::Idle => EffectView::Idle,
            Effect::Player(c) => EffectView::Player(c@),
            Effect::BrowseHome => EffectView::BrowseHome,
            Effect::ListDirectory => EffectView::ListDirectory,
            Effect::ScanPlaylist(i) => EffectView::ScanPlaylist(*i),
            Effect::CheckDirectory => EffectView::CheckDirectory,
            Effect::SaveConfig => EffectView::SaveConfig,
        }
    }
}

/// The interface's state.
pub struct App {
    pub screen: Screen,
    pub sidebar_open: bool,
    pub should_quit: bool,
    pub config: Config,
    pub home_mode: HomeMode,
    pub home_selected: usize,
    pub browser: Option<BrowserState>,
    pub naming_input: String,
    pub status_message: Option<String>,
    pub current_playlist: Option<ActivePlaylist>,
    pub playback_state: PlaybackState,
    pub now_playing_index: Option<usize>,
    pub position: TimeSpan,
    pub track_selected: usize,
    pub shuffle: bool,
    pub repeat_mode: RepeatMode,
}

/// The interface's state with its strings and lists as mathematical values.
pub struct AppView {
    pub screen: Screen,
    pub sidebar_open: bool,
    pub should_quit: bool,
    pub playlists: Seq<EntryView>,
    pub home_mode: HomeMode,
    pub home_selected: usize,
    pub browser: Option<BrowserView>,
    pub naming_input: Seq<char>,
    pub status_message: Option<Seq<char>>,
    pub current_playlist: Option<PlaylistView>,
    pub playback_state: PlaybackState,
    pub now_playing_index: Option<usize>,
    pub position: TimeSpan,
    pub track_selected: usize,
    pub shuffle: bool,
    pub repeat_mode: RepeatMode,
}

impl View for App {
    type V = AppView;

    open spec fn view(&self) -> AppView {
        AppView {
            screen: self.screen,
            sidebar_open: self.sidebar_open,
            should_quit: self.should_quit,
            playlists: self.config@,
            home_mode: self.home_mode,
            home_selected: self.home_selected,
            browser: match self.browser {
                Some(b) => Some(b@),
                None => None,
            },
            naming_input: self.naming_input@,
            status_message: match self.status_message {
                Some(m) => Some(m@),
                None => None,
            },
            current_playlist: match self.current_playlist {
                Some(p) => Some(p@),
                None => None,
            },
            playback_state: self.playback_state,
            now_playing_index: self.now_playing_index,
            position: self.position,
            track_selected: self.track_selected,
            shuffle: self.shuffle,
            repeat_mode: self.repeat_mode,
        }
    }
}

/// The state on start-up with the saved settings `config`.
pub open spec fn initial(playlists: Seq<EntryView>) -> AppView {
    AppView {
        screen: Screen::Home,
        sidebar_open: false,
        should_quit: false,
        playlists,
        home_mode: HomeMode::List,
        home_selected: 0,
        browser: None,
        naming_input: Seq::empty(),
        status_message: None,
        current_playlist: None,
        playback_state: PlaybackState::Stopped,
        now_playing_index: None,
        position: TimeSpan { secs: 0, nanos: 0 },
        track_selected: 0,
        shuffle: false,
        repeat_mode: RepeatMode::Off,
    }
}

impl App {
    /// The state on start-up, with the settings that were loaded (or the
    /// default ones).
    pub fn new(config: Config) -> (r: App)
        ensures
            r@ == initial(config@),
    {
        App {
            screen: Screen::Home,
            sidebar_open: false,
            should_quit: false,
            config,
            home_mode: HomeMode::List,
            home_selected: 0,
            browser: None,
            naming_input: String::new(),
            status_message: None,
            current_playlist: None,
            playback_state: PlaybackState::Stopped,
            now_playing_index: None,
            position: TimeSpan::zero(),
            track_selected: 0,
            shuffle: false,
            repeat_mode: RepeatMode::Off,
        }
    }

    pub fn advance_screen(&mut self)
        ensures
            final(self)@ == (AppView { screen: advanced(old(self).screen), ..old(self)@ }),
    {
        self.screen = match self.screen {
            Screen::Home => Screen::Playlist,
            Screen::Playlist => Screen::Cinema,
            Screen::Cinema => Screen::Cinema,
        };
    }

    pub fn retreat_screen(&mut self)
        ensures
            final(self)@ == (AppView { screen: retreated(old(self).screen), ..old(self)@ }),
    {
        self.screen = match self.screen {
            Screen::Home => Screen::Home,
            Screen::Playlist => Screen::Home,
            Screen::Cinema => Screen::Playlist,
        };
    }

    pub fn toggle_shuffle(&mut self)
        ensures
            final(self)@ == (AppView { shuffle: !old(self).shuffle, ..old(self)@ }),
    {
        self.shuffle = !self.shuffle;
    }

    pub fn cycle_repeat(&mut self)
        ensures
            final(self)@ == (AppView { repeat_mode: next_repeat(old(self).repeat_mode), ..old(self)@ }),
    {
        self.repeat_mode = self.repeat_mode.cycle();
    }
}

} // verus!
