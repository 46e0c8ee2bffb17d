use vstd::prelude::*;

use super::model::{
    finished_track, move_ok, move_selection, next_track, pause_command, play_at, poll_steps,
    previous_track, push_command, scroll_step, shuffle_pick, status_step, track_count,
};
use super::Screen;
use super::{App, PlaybackState, RepeatMode};
use crate::player::{CommandView, PlayerCommand, PlayerStatus, StatusView};
use crate::timing::{clock_subsec_nanos, TimeSpan, NANOS_PER_SEC};

verus! {

/// The view of an optional command.
pub open spec fn command_view(c: Option<PlayerCommand>) -> Option<CommandView> {
    match c {
        Some(c) => Some(c@),
        None => None,
    }
}

/// The views of a list of status updates.
pub open spec fn statuses_view(s: Seq<PlayerStatus>) -> Seq<StatusView> {
    s.map_values(|x: PlayerStatus| x@)
}

/// The views of a list of commands.
pub open spec fn commands_view(s: Seq<PlayerCommand>) -> Seq<CommandView> {
    s.map_values(|x: PlayerCommand| x@)
}

/// The shuffle pick out of `len` tracks for a clock reading of `nanos`.
pub fn pick_track_index(nanos: u32, len: usize, now_playing: Option<usize>) -> (r: usize)
    ensures
        r == shuffle_pick(nanos, len as nat, now_playing),
{
    if len <= 1 {
        return 0;
    }
    let index = (nanos as usize) % len;
    match now_playing {
        Some(i) => if i == index {
            (index + 1) % len
        } else {
            index
        },
        None => index,
    }
}

impl App {
    /// Cheap pseudo-random pick, good enough for shuffle: reads the clock.
    pub fn random_track_index(&self, len: usize) -> (r: usize)
        ensures
            exists|n: u32| n < NANOS_PER_SEC && r == #[trigger] shuffle_pick(n, len as nat, self.now_playing_index),
    {
        let nanos = clock_subsec_nanos();
        let r = pick_track_index(nanos, len, self.now_playing_index);
        assert(r == shuffle_pick(nanos, len as nat, self.now_playing_index));
        r
    }

    /// Starts the track at `index` when the open playlist has one there.
    pub fn play_track_at(&mut self, index: usize) -> (r: Option<PlayerCommand>)
        ensures
            (final(self)@, command_view(r)) == play_at(old(self)@, index as int),
    {
        let path = match &self.current_playlist {
            Some(p) => if index < p.tracks.len() {
                p.tracks[index].path.clone()
            } else {
                return None;
            },
            None => {
                return None;
            },
        };
        self.now_playing_index = Some(index);
        Some(PlayerCommand::Play(path))
    }

    pub fn play_selected_track(&mut self) -> (r: Option<PlayerCommand>)
        ensures
            (final(self)@, command_view(r)) == play_at(old(self)@, old(self).track_selected as int),
    {
        self.play_track_at(self.track_selected)
    }

    /// The number of tracks of the open playlist.
    fn track_len(&self) -> (r: usize)
        ensures
            r == track_count(self@),
    {
        match &self.current_playlist {
            Some(p) => p.tracks.len(),
            None => 0,
        }
    }

    pub fn advance_to_next_track(&mut self) -> (r: Option<PlayerCommand>)
        ensures
            exists|n: u32|
                n < NANOS_PER_SEC && #[trigger] next_track(old(self)@, n) == (final(self)@, command_view(r)),
    {
        let len = self.track_len();
        if len == 0 {
            assert(next_track(old(self)@, 0) == (self@, command_view(None)));
            return None;
        }
        if self.shuffle {
            let i = self.random_track_index(len);
            let ghost n = choose|n: u32| n < NANOS_PER_SEC && i == shuffle_pick(n, len as nat, self.now_playing_index);
            let r = self.play_track_at(i);
            assert(next_track(old(self)@, n) == (self@, command_view(r)));
            return r;
        }
        let next = match self.now_playing_index {
            Some(i) => if i < len - 1 {
                i + 1
            } else if self.repeat_mode == RepeatMode::All {
                0
            } else {
                self.now_playing_index = None;
                assert(next_track(old(self)@, 0) == (self@, command_view(None)));
                return None;
            },
            None => 0,
        };
        let r = self.play_track_at(next);
        assert(next_track(old(self)@, 0) == (self@, command_view(r)));
        r
    }

    pub fn play_previous_track(&mut self) -> (r: Option<PlayerCommand>)
        ensures
            exists|n: u32|
                n < NANOS_PER_SEC && #[trigger] previous_track(old(self)@, n) == (final(self)@, command_view(r)),
    {
        let len = self.track_len();
        if len == 0 {
            assert(previous_track(old(self)@, 0) == (self@, command_view(None)));
            return None;
        }
        if self.shuffle {
            let i = self.random_track_index(len);
            let ghost n = choose|n: u32| n < NANOS_PER_SEC && i == shuffle_pick(n, len as nat, self.now_playing_index);
            let r = self.play_track_at(i);
            assert(previous_track(old(self)@, n) == (self@, command_view(r)));
            return r;
        }
        let prev = match self.now_playing_index {
            Some(i) => if i == 0 {
                if self.repeat_mode == RepeatMode::All {
                    len - 1
                } else {
                    0
                }
            } else {
                i - 1
            },
            None => 0,
        };
        let r = self.play_track_at(prev);
        assert(previous_track(old(self)@, 0) == (self@, command_view(r)));
        r
    }

    /// Called when the player thread reports a track finished on its own.
    /// Repeat-one replays the same track instead of advancing.
    pub fn on_track_finished(&mut self) -> (r: Option<PlayerCommand>)
        ensures
            exists|n: u32|
                n < NANOS_PER_SEC && #[trigger] finished_track(old(self)@, n) == (final(self)@, command_view(r)),
    {
        if self.repeat_mode == RepeatMode::One {
            if let Some(i) = self.now_playing_index {
                let r = self.play_track_at(i);
                assert(finished_track(old(self)@, 0) == (self@, command_view(r)));
                return r;
            }
        }
        let r = self.advance_to_next_track();
        let ghost n = choose|n: u32| n < NANOS_PER_SEC && next_track(old(self)@, n) == (self@, command_view(r));
        assert(finished_track(old(self)@, n) == (self@, command_view(r)));
        r
    }

    /// Toggles pause/resume. No-op if nothing is currently loaded.
    pub fn toggle_pause(&self) -> (r: Option<PlayerCommand>)
        ensures
            command_view(r) == pause_command(self@),
    {
        match self.playback_state {
            PlaybackState::Playing => Some(PlayerCommand::Pause),
            PlaybackState::Paused => Some(PlayerCommand::Resume),
            PlaybackState::Stopped => None,
        }
    }

    /// Folds one status update from the player thread into the state.
    pub fn apply_player_status(&mut self, status: PlayerStatus) -> (r: Option<PlayerCommand>)
        ensures
            exists|n: u32|
                n < NANOS_PER_SEC && #[trigger] status_step(old(self)@, status@, n) == (final(self)@, command_view(r)),
    {
        match status {
            PlayerStatus::Playing { path: _, position } => {
                self.playback_state = PlaybackState::Playing;
                self.position = position;
                assert(status_step(old(self)@, status@, 0) == (self@, command_view(None)));
                None
            },
            PlayerStatus::Paused { position } => {
                self.playback_state = PlaybackState::Paused;
                self.position = position;
                assert(status_step(old(self)@, status@, 0) == (self@, command_view(None)));
                None
            },
            PlayerStatus::Stopped => {
                self.playback_state = PlaybackState::Stopped;
                self.now_playing_index = None;
                self.position = TimeSpan::zero();
                assert(status_step(old(self)@, status@, 0) == (self@, command_view(None)));
                None
            },
            PlayerStatus::Finished => {
                self.playback_state = PlaybackState::Stopped;
                self.position = TimeSpan::zero();
                let ghost mid = self@;
                let r = self.on_track_finished();
                let ghost n = choose|n: u32| n < NANOS_PER_SEC && finished_track(mid, n) == (self@, command_view(r));
                assert(status_step(old(self)@, status@, n) == (self@, command_view(r)));
                r
            },
            PlayerStatus::Error(message) => {
                self.status_message = Some(message);
                self.playback_state = PlaybackState::Stopped;
                assert(status_step(old(self)@, status@, 0) == (self@, command_view(None)));
                None
            },
        }
    }

    /// Drains a batch of status updates from the player thread and folds
    /// them in, in order; returns the commands they asked for, in order.
    pub fn poll_player(&mut self, statuses: Vec<PlayerStatus>) -> (r: Vec<PlayerCommand>)
        ensures
            exists|picks: Seq<u32>|
                picks.len() == statuses@.len() && (forall|k: int|
                    0 <= k < picks.len() ==> picks[k] < NANOS_PER_SEC) && #[trigger] poll_steps(
                    old(self)@,
                    statuses_view(statuses@),
                    picks,
                ) == (final(self)@, commands_view(r@)),
    {
        let ghost all = statuses@;
        let ghost start = self@;
        let mut rest = statuses;
        let mut rev: Vec<PlayerStatus> = Vec::new();
        while rest.len() > 0
            invariant
                rest@.len() + rev@.len() == all.len(),
                forall|j: int| 0 <= j < rest@.len() ==> rest@[j] == all[j],
                forall|j: int| 0 <= j < rev@.len() ==> rev@[j] == all[all.len() - 1 - j],
            decreases rest.len(),
        {
            let x = rest.pop().unwrap();
            rev.push(x);
        }
        let mut out: Vec<PlayerCommand> = Vec::new();
        let ghost mut picks: Seq<u32> = Seq::empty();
        let ghost mut i: int = 0;
        assert(statuses_view(all.take(0)) =~= Seq::<StatusView>::empty());
        assert(commands_view(out@) =~= Seq::<CommandView>::empty());
        while rev.len() > 0
            invariant
                i + rev@.len() == all.len(),
                0 <= i <= all.len(),
                forall|j: int| 0 <= j < rev@.len() ==> rev@[j] == all[all.len() - 1 - j],
                picks.len() == i,
                forall|k: int| 0 <= k < picks.len() ==> picks[k] < NANOS_PER_SEC,
                poll_steps(start, statuses_view(all.take(i)), picks) == (self@, commands_view(out@)),
            decreases rev.len(),
        {
            let s = rev.pop().unwrap();
            assert(s == all[i]);
            let ghost before = self@;
            let ghost before_out = out@;
            let c = self.apply_player_status(s);
            let ghost n = choose|n: u32|
                n < NANOS_PER_SEC && status_step(before, s@, n) == (self@, command_view(c));
            let ghost c_view = command_view(c);
            match c {
                Some(c) => {
                    out.push(c);
                },
                None => {},
            }
            proof {
                assert(commands_view(out@) =~= push_command(commands_view(before_out), c_view));
                let sv = statuses_view(all.take(i + 1));
                assert(sv.drop_last() =~= statuses_view(all.take(i)));
                assert(sv.last() == s@);
                assert(picks.push(n).drop_last() =~= picks);
                picks = picks.push(n);
                i = i + 1;
            }
        }
        assert(all.take(all.len() as int) =~= all);
        out
    }

    /// Moves the track highlight by `delta`, clamped to the open playlist.
    pub fn move_track_selection(&mut self, delta: i32)
        requires
            move_ok(old(self)@, delta),
        ensures
            final(self)@ == move_selection(old(self)@, delta),
    {
        let len = self.track_len();
        if len == 0 {
            return;
        }
        #[verifier::truncate]
        let last: i32 = (len as i32) - 1;
        #[verifier::truncate]
        let target: i32 = (self.track_selected as i32) + delta;
        let next: i32 = if target < 0 {
            0
        } else if target > last {
            last
        } else {
            target
        };
        self.track_selected = next as usize;
    }

    /// Scrolling moves the track highlight on the playlist and cinema
    /// screens.
    pub fn handle_scroll(&mut self, delta: i32)
        requires
            old(self).screen != Screen::Home ==> move_ok(old(self)@, delta),
        ensures
            final(self)@ == scroll_step(old(self)@, delta),
    {
        match self.screen {
            Screen::Playlist | Screen::Cinema => self.move_track_selection(delta),
            Screen::Home => {},
        }
    }
}

} // verus!
