use vstd::prelude::*;

use ratatui::layout::{Constraint, Direction, Layout};

use crate::app::{App, ControlButton};
use crate::library::Track;
use crate::text::{decimal, push_char, push_decimal, push_two_digits, two_digits};
use crate::timing::TimeSpan;

verus! {

/// A rectangle of terminal cells.
#[derive(Clone, Copy, Debug, PartialEq, Eq, Structural)]
pub struct Rect {
    pub x: u16,
    pub y: u16,
    pub width: u16,
    pub height: u16,
}

impl View for Rect {
    type V = (u16, u16, u16, u16);

    open spec fn view(&self) -> (u16, u16, u16, u16) {
        (self.x, self.y, self.width, self.height)
    }
}

/// Whether the cell at (`col`, `row`) lies inside `r`.
pub open spec fn hits(r: Rect, col: u16, row: u16) -> bool {
    r.x <= col < r.x + r.width && r.y <= row < r.y + r.height
}

/// What ratatui's `Layout::split` gives for a vertical layout of `area`
/// with a top part of at least `top_min` rows over a bottom part of
/// exactly `bottom_len` rows.
pub uninterp spec fn min_then_length_split(area: (u16, u16, u16, u16), top_min: u16, bottom_len: u16) -> (
    (u16, u16, u16, u16),
    (u16, u16, u16, u16),
);

/// Splits `area` vertically with ratatui's `Layout` under the constraints
/// `Min(top_min)` and `Length(bottom_len)`. The two rectangles are named,
/// not described: ratatui's solver decides them.
#[verifier::external_body]
fn split_min_then_length(area: Rect, top_min: u16, bottom_len: u16) -> (r: (Rect, Rect))
    ensures
        (r.0@, r.1@) == min_then_length_split(area@, top_min, bottom_len),
{
    let outside = ratatui::layout::Rect { x: area.x, y: area.y, width: area.width, height: area.height };
    let c = Layout::default().direction(Direction::Vertical).constraints(
        [Constraint::Min(top_min), Constraint::Length(bottom_len)],
    ).split(outside);
    (
        Rect { x: c[0].x, y: c[0].y, width: c[0].width, height: c[0].height },
        Rect { x: c[1].x, y: c[1].y, width: c[1].width, height: c[1].height },
    )
}

/// The screen's content area over the persistent bottom bar of four rows.
pub open spec fn content_and_bar(area: Rect) -> (u16, u16, u16, u16) {
    min_then_length_split(area@, 1, 4).1
}

/// Splits the terminal into the screen-specific content area and the
/// persistent bottom bar area (four rows high).
pub fn split_content_and_bar(area: Rect) -> (r: (Rect, Rect))
    ensures
        (r.0@, r.1@) == min_then_length_split(area@, 1, 4),
{
    split_min_then_length(area, 1, 4)
}

/// Click/render regions for the five transport icon buttons.
#[derive(Clone, Copy, Debug)]
pub struct BottomBarLayout {
    pub prev: Rect,
    pub play_pause: Rect,
    pub next: Rect,
    pub shuffle: Rect,
    pub repeat: Rect,
}

/// Width of one button, in cells.
pub const BUTTON_WIDTH: u16 = 7;

/// Gap between two buttons, in cells.
pub const BUTTON_GAP: u16 = 2;

/// The width of the five buttons and their gaps.
pub open spec fn buttons_width() -> int {
    5 * BUTTON_WIDTH + 4 * BUTTON_GAP
}

/// The column of the first button: the row of buttons is centered.
pub open spec fn buttons_start(area: Rect) -> int {
    area.x + (if area.width > buttons_width() { area.width - buttons_width() } else { 0 }) / 2
}

/// The rectangle of the button in `slot` (0 to 4), on the bar's first
/// content row, just under its top border.
pub open spec fn button_rect(area: Rect, slot: int) -> Rect {
    Rect {
        x: (buttons_start(area) + slot * (BUTTON_WIDTH + BUTTON_GAP)) as u16,
        y: (area.y + 1) as u16,
        width: BUTTON_WIDTH,
        height: 1,
    }
}

/// Whether the buttons' coordinates fit in the terminal's coordinate range.
pub open spec fn bar_fits(area: Rect) -> bool {
    &&& buttons_start(area) + 4 * (BUTTON_WIDTH + BUTTON_GAP) <= u16::MAX
    &&& area.y + 1 <= u16::MAX
}

/// Pure geometry: the five buttons, left to right, centered on the bar's
/// first content row.
pub fn bottom_bar_layout(area: Rect) -> (r: BottomBarLayout)
    requires
        bar_fits(area),
    ensures
        r.prev == button_rect(area, 0),
        r.play_pause == button_rect(area, 1),
        r.next == button_rect(area, 2),
        r.shuffle == button_rect(area, 3),
        r.repeat == button_rect(area, 4),
{
    let total_width: u16 = 5 * BUTTON_WIDTH + 4 * BUTTON_GAP;
    let spare: u16 = if area.width > total_width { area.width - total_width } else { 0 };
    let start_x: u16 = area.x + spare / 2;
    let y: u16 = area.y + 1;
    BottomBarLayout {
        prev: Rect { x: start_x, y, width: BUTTON_WIDTH, height: 1 },
        play_pause: Rect { x: start_x + (BUTTON_WIDTH + BUTTON_GAP), y, width: BUTTON_WIDTH, height: 1 },
        next: Rect { x: start_x + 2 * (BUTTON_WIDTH + BUTTON_GAP), y, width: BUTTON_WIDTH, height: 1 },
        shuffle: Rect { x: start_x + 3 * (BUTTON_WIDTH + BUTTON_GAP), y, width: BUTTON_WIDTH, height: 1 },
        repeat: Rect { x: start_x + 4 * (BUTTON_WIDTH + BUTTON_GAP), y, width: BUTTON_WIDTH, height: 1 },
    }
}

/// The button under the cell (`col`, `row`) of a bottom bar drawn in
/// `area`, if any; the buttons are tried left to right.
pub open spec fn button_under(area: Rect, col: u16, row: u16) -> Option<ControlButton> {
    if hits(button_rect(area, 0), col, row) {
        Some(ControlButton::Prev)
    } else if hits(button_rect(area, 1), col, row) {
        Some(ControlButton::PlayPause)
    } else if hits(button_rect(area, 2), col, row) {
        Some(ControlButton::Next)
    } else if hits(button_rect(area, 3), col, row) {
        Some(ControlButton::Shuffle)
    } else if hits(button_rect(area, 4), col, row) {
        Some(ControlButton::Repeat)
    } else {
        None
    }
}

/// Whether the cell lies inside the rectangle.
fn hit(r: Rect, col: u16, row: u16) -> (b: bool)
    ensures
        b == hits(r, col, row),
{
    col >= r.x && (col as u32) < r.x as u32 + r.width as u32 && row >= r.y && (row as u32) < r.y as u32
        + r.height as u32
}

/// Maps a click at (`col`, `row`) onto the transport buttons of a bottom
/// bar drawn in `bar`.
pub fn button_at(bar: Rect, col: u16, row: u16) -> (r: Option<ControlButton>)
    requires
        bar_fits(bar),
    ensures
        r == button_under(bar, col, row),
{
    let layout = bottom_bar_layout(bar);
    if hit(layout.prev, col, row) {
        Some(ControlButton::Prev)
    } else if hit(layout.play_pause, col, row) {
        Some(ControlButton::PlayPause)
    } else if hit(layout.next, col, row) {
        Some(ControlButton::Next)
    } else if hit(layout.shuffle, col, row) {
        Some(ControlButton::Shuffle)
    } else if hit(layout.repeat, col, row) {
        Some(ControlButton::Repeat)
    } else {
        None
    }
}

/// Whether the bar fits (the condition of `bottom_bar_layout`).
pub fn bar_fits_check(area: Rect) -> (r: bool)
    ensures
        r == bar_fits(area),
{
    let total_width: u32 = 5 * 7 + 4 * 2;
    let spare: u32 = if area.width as u32 > total_width { area.width as u32 - total_width } else { 0 };
    let start: u32 = area.x as u32 + spare / 2;
    start + 4 * 9 <= 65535 && area.y as u32 + 1 <= 65535
}

/// Maps a left-click at (`col`, `row`) of a terminal of size `terminal`
/// onto the transport buttons in the persistent bottom bar, recomputing the
/// geometry the drawing uses; `None` when it landed on no button, and when
/// the bar lies too close to the end of the coordinate range to hold them.
pub fn clicked_button(terminal: Rect, col: u16, row: u16) -> (r: Option<ControlButton>)
    ensures
        ({
            let (bx, by, bw, bh) = content_and_bar(terminal);
            let bar = Rect { x: bx, y: by, width: bw, height: bh };
            r == if bar_fits(bar) {
                button_under(bar, col, row)
            } else {
                None
            }
        }),
{
    let (_, bar) = split_content_and_bar(terminal);
    if bar_fits_check(bar) {
        button_at(bar, col, row)
    } else {
        None
    }
}

/// A popup rectangle `height` rows high and `percent_width` percent as
/// wide as `area`, centered in it.
pub open spec fn centered(percent_width: u16, height: u16, area: Rect) -> Rect {
    let width = area.width * percent_width / 100;
    Rect {
        x: (area.x + (if area.width > width { area.width - width } else { 0 }) / 2) as u16,
        y: (area.y + (if area.height > height { area.height - height } else { 0 }) / 2) as u16,
        width: width as u16,
        height,
    }
}

/// Whether centering fits the coordinate range.
pub open spec fn centered_fits(percent_width: u16, height: u16, area: Rect) -> bool {
    let width = area.width * percent_width / 100;
    &&& area.width * percent_width <= u16::MAX
    &&& area.x + (if area.width > width { area.width - width } else { 0 }) / 2 <= u16::MAX
    &&& area.y + (if area.height > height { area.height - height } else { 0 }) / 2 <= u16::MAX
}

pub fn centered_rect(percent_width: u16, height: u16, area: Rect) -> (r: Rect)
    requires
        centered_fits(percent_width, height, area),
    ensures
        r == centered(percent_width, height, area),
{
    let width: u16 = area.width * percent_width / 100;
    let x: u16 = area.x + (if area.width > width { area.width - width } else { 0 }) / 2;
    let y: u16 = area.y + (if area.height > height { area.height - height } else { 0 }) / 2;
    Rect { x, y, width, height }
}

/// A duration as `h:mm:ss`, or `m:ss` under an hour.
pub open spec fn duration_text(total_secs: nat) -> Seq<char> {
    let hours = total_secs / 3600;
    let minutes = (total_secs % 3600) / 60;
    let seconds = total_secs % 60;
    if hours > 0 {
        decimal(hours) + seq![':'] + two_digits(minutes) + seq![':'] + two_digits(seconds)
    } else {
        decimal(minutes) + seq![':'] + two_digits(seconds)
    }
}

pub fn format_duration(duration: TimeSpan) -> (r: String)
    ensures
        r@ == duration_text(duration.secs as nat),
{
    let total_secs = duration.as_secs();
    let hours = total_secs / 3600;
    let minutes = (total_secs % 3600) / 60;
    let seconds = total_secs % 60;
    let mut out = String::new();
    if hours > 0 {
        push_decimal(&mut out, hours);
        push_char(&mut out, ':');
        push_two_digits(&mut out, minutes);
        push_char(&mut out, ':');
        push_two_digits(&mut out, seconds);
    } else {
        push_decimal(&mut out, minutes);
        push_char(&mut out, ':');
        push_two_digits(&mut out, seconds);
    }
    assert(out@ =~= duration_text(duration.secs as nat));
    out
}

} // verus!

verus! {

/// The width of the progress bar for a bottom bar `area_width` cells wide:
/// the width less 24, kept between 10 and 80.
pub open spec fn bar_width_for(area_width: u16) -> nat {
    let w = if area_width > 24 { area_width - 24 } else { 0 };
    if w < 10 {
        10
    } else if w > 80 {
        80
    } else {
        w as nat
    }
}

pub fn progress_bar_width(area_width: u16) -> (r: usize)
    ensures
        r == bar_width_for(area_width),
{
    let w: usize = if area_width > 24 { (area_width - 24) as usize } else { 0 };
    if w < 10 {
        10
    } else if w > 80 {
        80
    } else {
        w
    }
}

/// `n` copies of `c`.
pub open spec fn repeated(c: char, n: nat) -> Seq<char> {
    Seq::new(n, |i: int| c)
}

/// A progress bar `width` cells wide with `filled` cells done.
pub open spec fn bar_text(width: nat, filled: nat) -> Seq<char> {
    repeated('=', filled) + repeated('-', if width > filled { (width - filled) as nat } else { 0 })
}

/// Appends `n` copies of `c`.
fn push_repeated(s: &mut String, c: char, n: usize)
    ensures
        final(s)@ == old(s)@ + repeated(c, n as nat),
{
    let mut i: usize = 0;
    while i < n
        invariant
            i <= n,
            s@ == old(s)@ + repeated(c, i as nat),
        decreases n - i,
    {
        push_char(s, c);
        i = i + 1;
        assert(s@ =~= old(s)@ + repeated(c, i as nat));
    }
}

/// The bottom bar's text line: the track now playing with the elapsed
/// time, the progress bar and the track's length; otherwise a hint.
pub open spec fn progress_text(v: crate::app::AppView, bar_width: nat, filled: nat) -> Seq<char> {
    match v.current_playlist {
        Some(p) => match v.now_playing_index {
            Some(i) => if i < p.tracks.len() {
                p.tracks[i as int].title + "   "@ + duration_text(v.position.secs as nat) + " ["@
                    + bar_text(bar_width, filled) + "] "@ + duration_text(
                    p.tracks[i as int].duration.secs as nat,
                )
            } else {
                "select a track and press Enter"@
            },
            None => "select a track and press Enter"@,
        },
        None => "no playlist open"@,
    }
}

impl App {
    /// The track now playing, when it is one of the open playlist's.
    pub fn now_playing_track(&self) -> (r: Option<&Track>)
        ensures
            match self@.current_playlist {
                Some(p) => match self.now_playing_index {
                    Some(i) => if i < p.tracks.len() {
                        r matches Some(t) && t@ == p.tracks[i as int]
                    } else {
                        r is None
                    },
                    None => r is None,
                },
                None => r is None,
            },
    {
        match &self.current_playlist {
            Some(p) => match self.now_playing_index {
                Some(i) => if i < p.tracks.len() {
                    Some(&p.tracks[i])
                } else {
                    None
                },
                None => None,
            },
            None => None,
        }
    }

    /// The bottom bar's text line, with `filled` cells of a progress bar
    /// `bar_width` cells wide done.
    pub fn progress_line(&self, bar_width: usize, filled: usize) -> (r: String)
        ensures
            r@ == progress_text(self@, bar_width as nat, filled as nat),
    {
        match self.now_playing_track() {
            Some(track) => {
                let mut out = track.title.clone();
                out.append("   ");
                let elapsed = format_duration(self.position);
                out.append(elapsed.as_str());
                out.append(" [");
                push_repeated(&mut out, '=', filled);
                let rest = if bar_width > filled { bar_width - filled } else { 0 };
                push_repeated(&mut out, '-', rest);
                out.append("] ");
                let total = format_duration(track.duration);
                out.append(total.as_str());
                assert(out@ =~= progress_text(self@, bar_width as nat, filled as nat));
                out
            },
            None => if self.current_playlist.is_some() {
                String::from_str("select a track and press Enter")
            } else {
                String::from_str("no playlist open")
            },
        }
    }
}

} // verus!

verus! {

/// The look of a bottom-bar button.
#[derive(Clone, Copy, Debug, PartialEq, Eq, Structural)]
pub enum ButtonLook {
    Inactive,
    Active,
    /// The look of the repeat button under repeat-one.
    RepeatOne,
}

/// The play/pause button looks active while a track plays.
pub fn play_pause_look(state: crate::app::PlaybackState) -> (r: ButtonLook)
    ensures
        r == if state == crate::app::PlaybackState::Playing {
            ButtonLook::Active
        } else {
            ButtonLook::Inactive
        },
{
    match state {
        crate::app::PlaybackState::Playing => ButtonLook::Active,
        _ => ButtonLook::Inactive,
    }
}

/// The play/pause button shows "pause" while a track plays, else "play".
pub fn play_pause_icon(state: crate::app::PlaybackState) -> (r: String)
    ensures
        r@ == if state == crate::app::PlaybackState::Playing {
            "\u{23f8}"@
        } else {
            "\u{25b6}"@
        },
{
    match state {
        crate::app::PlaybackState::Playing => String::from_str("\u{23f8}"),
        _ => String::from_str("\u{25b6}"),
    }
}

/// The shuffle button looks active while shuffling.
pub fn shuffle_look(shuffle: bool) -> (r: ButtonLook)
    ensures
        r == if shuffle {
            ButtonLook::Active
        } else {
            ButtonLook::Inactive
        },
{
    if shuffle {
        ButtonLook::Active
    } else {
        ButtonLook::Inactive
    }
}

/// The repeat button's look by mode.
pub fn repeat_look(mode: crate::app::RepeatMode) -> (r: ButtonLook)
    ensures
        r == match mode {
            crate::app::RepeatMode::Off => ButtonLook::Inactive,
            crate::app::RepeatMode::All => ButtonLook::Active,
            crate::app::RepeatMode::One => ButtonLook::RepeatOne,
        },
{
    match mode {
        crate::app::RepeatMode::Off => ButtonLook::Inactive,
        crate::app::RepeatMode::All => ButtonLook::Active,
        crate::app::RepeatMode::One => ButtonLook::RepeatOne,
    }
}

/// The repeat button's icon, marked "1" under repeat-one.
pub fn repeat_icon(mode: crate::app::RepeatMode) -> (r: String)
    ensures
        r@ == if mode == crate::app::RepeatMode::One {
            "\u{21bb}1"@
        } else {
            "\u{21bb}"@
        },
{
    if mode == crate::app::RepeatMode::One {
        String::from_str("\u{21bb}1")
    } else {
        String::from_str("\u{21bb}")
    }
}

/// The number column of a track row: a `>` marker on the track now
/// playing, then the track's position.
pub fn track_number_label(index: usize, now_playing: bool) -> (r: String)
    ensures
        r@ == (if now_playing {
            seq!['>']
        } else {
            seq![' ']
        }) + decimal(index as nat),
{
    let mut out = String::new();
    push_char(&mut out, if now_playing { '>' } else { ' ' });
    push_decimal(&mut out, index as u64);
    out
}

/// A saved playlist in the home list: its name, then its folder in
/// parentheses.
pub fn playlist_label(entry: &crate::config::PlaylistEntry) -> (r: String)
    ensures
        r@ == entry.name@ + " ("@ + entry.path@ + ")"@,
{
    let mut out = entry.name.clone();
    out.append(" (");
    out.append(entry.path.as_str());
    out.append(")");
    out
}

/// A browser line (an entry, or the directory in the title): the text
/// after one space.
pub fn indented(text: &str) -> (r: String)
    ensures
        r@ == " "@ + text@,
{
    let mut out = String::from_str(" ");
    out.append(text);
    out
}

/// A text-entry line: the typed text followed by an underscore cursor.
pub fn input_line(input: &str) -> (r: String)
    ensures
        r@ == input@.push('_'),
{
    let mut out = String::from_str(input);
    push_char(&mut out, '_');
    out
}

} // verus!
