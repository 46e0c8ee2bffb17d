use vstd::prelude::*;

use super::model::{
    poll_steps, control_step, finished_track, key_event_step, key_step, move_ok, move_selection, next_track,
    pause_command, play_at, previous_track, shuffle_pick, track_count, with_effect,
};
use super::{
    advanced, next_repeat, retreated, AppView, ControlButton, HomeMode, Key, PlaybackState,
    RepeatMode, Screen,
};
use crate::player::CommandView;

verus! {

/// The key that does on the playlist and cinema screens what a bottom-bar
/// button does.
pub open spec fn key_of_button(b: ControlButton) -> Key {
    match b {
        ControlButton::Prev => Key::Char('p'),
        ControlButton::PlayPause => Key::Char(' '),
        ControlButton::Next => Key::Char('n'),
        ControlButton::Shuffle => Key::Char('s'),
        ControlButton::Repeat => Key::Char('r'),
    }
}

/// Clicking a bottom-bar button and pressing its key trigger the exact
/// same behavior on the playlist and cinema screens, for the same clock
/// reading.
pub proof fn law_buttons_match_keys(v: AppView, b: ControlButton, nanos: u32)
    requires
        v.screen != Screen::Home,
    ensures
        key_step(v, key_of_button(b), nanos) == with_effect(control_step(v, b, nanos)),
{
}

/// The repeat button comes back to where it started after three presses,
/// passing through all three modes.
pub proof fn law_repeat_cycles(m: RepeatMode)
    ensures
        next_repeat(next_repeat(next_repeat(m))) == m,
        next_repeat(m) != m,
        next_repeat(next_repeat(m)) != m,
{
}

/// Pressing the shuffle key twice on the playlist or cinema screen leaves
/// the state as it was, and asks nothing.
pub proof fn law_shuffle_key_twice(v: AppView, n1: u32, n2: u32)
    requires
        v.screen != Screen::Home,
    ensures
        key_step(key_step(v, Key::Char('s'), n1).0, Key::Char('s'), n2).0 == v,
{
    assert(key_step(key_step(v, Key::Char('s'), n1).0, Key::Char('s'), n2).0 =~= v);
}

/// Going back undoes going forward, except from the deepest screen.
pub proof fn law_retreat_undoes_advance(s: Screen)
    requires
        s != Screen::Cinema,
    ensures
        retreated(advanced(s)) == s,
{
}

/// A shuffle pick is one of the tracks, and never the track now playing
/// when there is another to pick.
pub proof fn law_shuffle_pick(nanos: u32, len: nat, now_playing: Option<usize>)
    requires
        1 <= len <= usize::MAX,
    ensures
        shuffle_pick(nanos, len, now_playing) < len,
        len > 1 && now_playing is Some ==> shuffle_pick(nanos, len, now_playing) != now_playing.unwrap(),
{
    if len > 1 {
        let index = (nanos as nat) % len;
        vstd::arithmetic::div_mod::lemma_mod_bound(nanos as int, len as int);
        vstd::arithmetic::div_mod::lemma_mod_bound((index + 1) as int, len as int);
        if index + 1 < len {
            vstd::arithmetic::div_mod::lemma_small_mod((index + 1) as nat, len);
        } else {
            vstd::arithmetic::div_mod::lemma_mod_self_0(len as int);
        }
    }
}

/// Repeat-one replays the track that finished instead of advancing.
pub proof fn law_repeat_one_replays(v: AppView, nanos: u32)
    requires
        v.repeat_mode == RepeatMode::One,
        v.now_playing_index matches Some(i) && i < track_count(v),
    ensures
        finished_track(v, nanos).0 == v,
        finished_track(v, nanos).1 == Some(
            CommandView::Play(v.current_playlist.unwrap().tracks[v.now_playing_index.unwrap() as int].path),
        ),
{
    assert(finished_track(v, nanos).0 =~= v);
}

/// Under repeat-all, without shuffle, skipping back undoes skipping
/// forward: the same track plays again.
pub proof fn law_previous_undoes_next(v: AppView, n1: u32, n2: u32)
    requires
        v.repeat_mode == RepeatMode::All,
        !v.shuffle,
        v.now_playing_index matches Some(i) && i < track_count(v),
        track_count(v) <= usize::MAX,
    ensures
        previous_track(next_track(v, n1).0, n2).0.now_playing_index == v.now_playing_index,
        previous_track(next_track(v, n1).0, n2).1 == Some(
            CommandView::Play(v.current_playlist.unwrap().tracks[v.now_playing_index.unwrap() as int].path),
        ),
{
    let i = v.now_playing_index.unwrap();
    let len = track_count(v);
    let w = next_track(v, n1).0;
    if i + 1 < len {
        assert(w == AppView { now_playing_index: Some((i + 1) as usize), ..v });
        assert(previous_track(w, n2) == play_at(w, i as int));
    } else {
        assert(w == AppView { now_playing_index: Some(0usize), ..v });
        assert(previous_track(w, n2) == play_at(w, len - 1));
    }
}

/// Moving the track highlight keeps it on a track of the open playlist.
pub proof fn law_highlight_stays_on_a_track(v: AppView, delta: i32)
    requires
        move_ok(v, delta),
        track_count(v) > 0,
    ensures
        move_selection(v, delta).track_selected < track_count(v),
{
    let len = track_count(v);
    assert((len as i32) <= len);
}

/// The play/pause button does nothing exactly when nothing is loaded.
pub proof fn law_pause_noop_when_stopped(v: AppView)
    ensures
        pause_command(v) is None <==> v.playback_state == PlaybackState::Stopped,
{
}

/// Ctrl+C quits from anywhere.
pub proof fn law_ctrl_c_quits(v: AppView, nanos: u32)
    ensures
        key_event_step(v, Key::Char('c'), true, nanos).0.should_quit,
{
}

/// `q` quits on every screen while the home screen lists playlists.
pub proof fn law_q_quits_from_list(v: AppView, nanos: u32)
    requires
        v.home_mode == HomeMode::List,
    ensures
        key_step(v, Key::Char('q'), nanos).0.should_quit,
{
}

/// Folding a batch in one poll is the same as folding its first part in
/// one poll and the rest in the next: the same final state, and the same
/// commands in the same order. A poll with nothing pending changes nothing.
pub proof fn law_poll_in_two_batches(
    v: AppView,
    s1: Seq<crate::player::StatusView>,
    s2: Seq<crate::player::StatusView>,
    p1: Seq<u32>,
    p2: Seq<u32>,
)
    requires
        s1.len() == p1.len(),
        s2.len() == p2.len(),
    ensures
        ({
            let (w, c1) = poll_steps(v, s1, p1);
            let (x, c2) = poll_steps(w, s2, p2);
            poll_steps(v, s1 + s2, p1 + p2) == (x, c1 + c2)
        }),
        poll_steps(v, Seq::empty(), Seq::empty()) == (v, Seq::<CommandView>::empty()),
    decreases s2.len(),
{
    if s2.len() == 0 {
        assert(s1 + s2 =~= s1);
        assert(p1 + p2 =~= p1);
        let (w, c1) = poll_steps(v, s1, p1);
        assert(c1 + Seq::<CommandView>::empty() =~= c1);
    } else {
        law_poll_in_two_batches(v, s1, s2.drop_last(), p1, p2.drop_last());
        assert((s1 + s2).drop_last() =~= s1 + s2.drop_last());
        assert((p1 + p2).drop_last() =~= p1 + p2.drop_last());
        assert((s1 + s2).last() == s2.last());
        assert((p1 + p2).last() == p2.last());
        let (w, c1) = poll_steps(v, s1, p1);
        let (y, c2a) = poll_steps(w, s2.drop_last(), p2.drop_last());
        let (x, c) = super::model::status_step(y, s2.last(), p2.last());
        assert(super::model::push_command(c1 + c2a, c) =~= c1 + super::model::push_command(c2a, c));
    }
}

/// A playlist name of whitespace alone is not saved: Enter leaves the
/// naming prompt as it is and asks for nothing.
pub proof fn law_blank_name_not_saved(v: AppView)
    requires
        forall|i: int| 0 <= i < v.naming_input.len() ==> crate::text::is_white_space(#[trigger] v.naming_input[i]),
    ensures
        super::model::naming_key(v, Key::Enter) == (v, super::EffectView::Idle),
{
    crate::text::lemma_blank_trims_to_nothing(v.naming_input);
}

/// Trimming drops the spaces around a typed path: "  /  " becomes "/".
pub proof fn law_trim_example()
    ensures
        crate::text::trimmed(seq![' ', ' ', '/', ' ', ' ']) == seq!['/'],
{
    let s = seq![' ', ' ', '/', ' ', ' '];
    assert(crate::text::is_white_space(' '));
    assert(!crate::text::is_white_space('/'));
    let s1 = seq![' ', '/', ' ', ' '];
    let t = seq!['/', ' ', ' '];
    assert(s.drop_first() =~= s1);
    assert(s1.drop_first() =~= t);
    assert(crate::text::trim_start(t) == t);
    assert(crate::text::trim_start(s1) == t);
    assert(crate::text::trim_start(s) == t);
    let u = seq!['/', ' '];
    let w = seq!['/'];
    assert(t.drop_last() =~= u);
    assert(u.drop_last() =~= w);
    assert(crate::text::trim_end(w) == w);
    assert(crate::text::trim_end(u) == w);
    assert(crate::text::trim_end(t) == seq!['/']);
}

/// Without shuffle, skipping back from a track other than the first plays
/// the track just before it and makes it the track now playing, whatever
/// the repeat mode.
pub proof fn law_previous_steps_back(v: AppView, nanos: u32)
    requires
        !v.shuffle,
        v.now_playing_index matches Some(i) && 0 < i < track_count(v),
    ensures
        ({
            let i = v.now_playing_index.unwrap();
            let (w, c) = previous_track(v, nanos);
            &&& w == (AppView { now_playing_index: Some((i - 1) as usize), ..v })
            &&& c == Some(CommandView::Play(v.current_playlist.unwrap().tracks[i - 1].path))
        }),
{
}

/// Without shuffle, skipping forward from a track that has a successor
/// plays that successor and makes it the track now playing, under every
/// repeat mode (repeat-one only matters when a track ends on its own).
pub proof fn law_next_steps_forward(v: AppView, nanos: u32)
    requires
        !v.shuffle,
        v.now_playing_index matches Some(i) && i + 1 < track_count(v),
    ensures
        ({
            let i = v.now_playing_index.unwrap();
            let (w, c) = next_track(v, nanos);
            &&& w == (AppView { now_playing_index: Some((i + 1) as usize), ..v })
            &&& c == Some(CommandView::Play(v.current_playlist.unwrap().tracks[i + 1].path))
        }),
{
}

/// A track that ends on its own is replayed only under repeat-one; under
/// any other mode playback goes on exactly as skipping forward does.
pub proof fn law_finish_skips_unless_repeat_one(v: AppView, nanos: u32)
    requires
        v.repeat_mode != RepeatMode::One,
    ensures
        finished_track(v, nanos) == next_track(v, nanos),
{
}

/// Under repeat-all (or off), without shuffle, a finished track that has a
/// successor is followed by that successor.
pub proof fn law_finish_moves_on(v: AppView, nanos: u32)
    requires
        v.repeat_mode != RepeatMode::One,
        !v.shuffle,
        v.now_playing_index matches Some(i) && i + 1 < track_count(v),
    ensures
        ({
            let i = v.now_playing_index.unwrap();
            let (w, c) = finished_track(v, nanos);
            &&& w.now_playing_index == Some((i + 1) as usize)
            &&& c == Some(CommandView::Play(v.current_playlist.unwrap().tracks[i + 1].path))
        }),
{
    law_finish_skips_unless_repeat_one(v, nanos);
    law_next_steps_forward(v, nanos);
}

} // verus!
