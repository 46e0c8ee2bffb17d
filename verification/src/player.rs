use vstd::prelude::*;

use crate::timing::{elapsed_position, TimeSpan};

verus! {

/// A request from the interface to the player thread.
#[derive(Clone, Debug, PartialEq, Eq)]
pub enum PlayerCommand {
    Play(String),
    Pause,
    Resume,
    Stop,
}

/// A player command with its path as characters.
pub enum CommandView {
    Play(Seq<char>),
    Pause,
    Resume,
    Stop,
}

impl View for PlayerCommand {
    type V = CommandView;

    open spec fn view(&self) -> CommandView {
        match self {
            PlayerCommand::Play(p) => CommandView::Play(p@),
            PlayerCommand::Pause => CommandView::Pause,
            PlayerCommand::Resume => CommandView::Resume,
            PlayerCommand::Stop => CommandView::Stop,
        }
    }
}

/// Status updates sent from the player thread back to the interface.
#[derive(Clone, Debug, PartialEq, Eq)]
pub enum PlayerStatus {
    Playing { path: String, position: TimeSpan },
    Paused { position: TimeSpan },
    /// The current track finished on its own (not a manual stop).
    Finished,
    Stopped,
    Error(String),
}

/// A status update with its strings as characters.
pub enum StatusView {
    Playing { path: Seq<char>, position: TimeSpan },
    Paused { position: TimeSpan },
    Finished,
    Stopped,
    Error(Seq<char>),
}

impl View for PlayerStatus {
    type V = StatusView;

    open spec fn view(&self) -> StatusView {
        match self {
            PlayerStatus::Playing { path, position } => StatusView::Playing {
                path: path@,
                position: *position,
            },
            PlayerStatus::Paused { position } => StatusView::Paused { position: *position },
            PlayerStatus::Finished => StatusView::Finished,
            PlayerStatus::Stopped => StatusView::Stopped,
            PlayerStatus::Error(m) => StatusView::Error(m@),
        }
    }
}

/// What happened to the player thread since its last decision: a command
/// arrived (for `Play`, together with the outcome of opening the file), the
/// wait for a command timed out (with whether the sink has drained), or the
/// command channel closed.
pub enum PlayerEvent {
    Play { path: String, opened: Result<(), String> },
    Pause,
    Resume,
    Stop,
    Timeout { sink_empty: bool },
    Disconnected,
}

/// A player event with its strings as characters.
pub enum EventView {
    Play { path: Seq<char>, opened: Result<(), Seq<char>> },
    Pause,
    Resume,
    Stop,
    Timeout { sink_empty: bool },
    Disconnected,
}

impl View for PlayerEvent {
    type V = EventView;

    open spec fn view(&self) -> EventView {
        match self {
            PlayerEvent::Play { path, opened } => EventView::Play {
                path: path@,
                opened: match opened {
                    Ok(()) => Ok(()),
                    Err(e) => Err(e@),
                },
            },
            PlayerEvent::Pause => EventView::Pause,
            PlayerEvent::Resume => EventView::Resume,
            PlayerEvent::Stop => EventView::Stop,
            PlayerEvent::Timeout { sink_empty } => EventView::Timeout { sink_empty: *sink_empty },
            PlayerEvent::Disconnected => EventView::Disconnected,
        }
    }
}

/// What to do with the audio sink.
#[derive(Clone, Copy, Debug, PartialEq, Eq, Structural)]
pub enum SinkAction {
    /// Leave it as it is.
    Keep,
    /// Replace it by the sink that was just opened.
    Install,
    /// Pause it.
    Pause,
    /// Resume it.
    Resume,
    /// Drop it.
    Drop,
}

/// What to do with the playback clock (the instant playback last started).
#[derive(Clone, Copy, Debug, PartialEq, Eq, Structural)]
pub enum ClockAction {
    Keep,
    /// Restart it now.
    Start,
    /// Clear it.
    Stop,
}

/// The player thread's answer to one event.
pub struct PlayerDecision {
    pub sink: SinkAction,
    pub clock: ClockAction,
    /// The status to report, if any.
    pub report: Option<PlayerStatus>,
    /// Whether the thread ends.
    pub exit: bool,
}

/// A decision with its report as a view.
pub struct DecisionView {
    pub sink: SinkAction,
    pub clock: ClockAction,
    pub report: Option<StatusView>,
    pub exit: bool,
}

impl View for PlayerDecision {
    type V = DecisionView;

    open spec fn view(&self) -> DecisionView {
        DecisionView {
            sink: self.sink,
            clock: self.clock,
            report: match self.report {
                Some(s) => Some(s@),
                None => None,
            },
            exit: self.exit,
        }
    }
}

/// The player thread's state: whether a sink is loaded, the path it plays,
/// whether the playback clock runs, and the position at the last pause.
pub struct PlayerCore {
    pub has_sink: bool,
    pub current_path: Option<String>,
    pub clock_running: bool,
    pub paused_position: TimeSpan,
}

/// The player state with its path as characters.
pub struct CoreView {
    pub has_sink: bool,
    pub current_path: Option<Seq<char>>,
    pub clock_running: bool,
    pub paused_position: TimeSpan,
}

impl View for PlayerCore {
    type V = CoreView;

    open spec fn view(&self) -> CoreView {
        CoreView {
            has_sink: self.has_sink,
            current_path: match self.current_path {
                Some(p) => Some(p@),
                None => None,
            },
            clock_running: self.clock_running,
            paused_position: self.paused_position,
        }
    }
}

/// The zero span.
pub open spec fn zero_span() -> TimeSpan {
    TimeSpan { secs: 0, nanos: 0 }
}

/// The message reported when a file cannot be played.
pub open spec fn play_error_message(path: Seq<char>, error: Seq<char>) -> Seq<char> {
    "couldn't play "@ + path + ": "@ + error
}

/// A decision that changes nothing and reports nothing.
pub open spec fn idle() -> DecisionView {
    DecisionView { sink: SinkAction::Keep, clock: ClockAction::Keep, report: None, exit: false }
}

/// Whether the event makes the thread add the running time to the paused
/// position.
pub open spec fn reads_clock(c: CoreView, e: EventView) -> bool {
    &&& c.has_sink
    &&& c.clock_running
    &&& (e is Pause || (e == (EventView::Timeout { sink_empty: false }) && c.current_path is Some))
}

/// The player thread's rule: the next state and the decision for an event,
/// given the time since the clock last started.
pub open spec fn player_step(c: CoreView, e: EventView, since_start: TimeSpan) -> (CoreView, DecisionView) {
    match e {
        EventView::Play { path, opened } => match opened {
            Ok(()) => (
                CoreView {
                    has_sink: true,
                    current_path: Some(path),
                    clock_running: true,
                    paused_position: zero_span(),
                },
                DecisionView {
                    sink: SinkAction::Install,
                    clock: ClockAction::Start,
                    report: Some(StatusView::Playing { path, position: zero_span() }),
                    exit: false,
                },
            ),
            Err(error) => (
                c,
                DecisionView {
                    report: Some(StatusView::Error(play_error_message(path, error))),
                    ..idle()
                },
            ),
        },
        EventView::Pause => if c.has_sink {
            let position = if c.clock_running {
                c.paused_position.plus(since_start)
            } else {
                c.paused_position
            };
            (
                CoreView { clock_running: false, paused_position: position, ..c },
                DecisionView {
                    sink: SinkAction::Pause,
                    clock: ClockAction::Stop,
                    report: Some(StatusView::Paused { position }),
                    exit: false,
                },
            )
        } else {
            (c, idle())
        },
        EventView::Resume => if c.has_sink {
            (
                CoreView { clock_running: true, ..c },
                DecisionView {
                    sink: SinkAction::Resume,
                    clock: ClockAction::Start,
                    report: match c.current_path {
                        Some(path) => Some(StatusView::Playing { path, position: c.paused_position }),
                        None => None,
                    },
                    exit: false,
                },
            )
        } else {
            (c, idle())
        },
        EventView::Stop => (
            CoreView {
                has_sink: false,
                current_path: None,
                clock_running: false,
                paused_position: zero_span(),
            },
            DecisionView {
                sink: SinkAction::Drop,
                clock: ClockAction::Stop,
                report: Some(StatusView::Stopped),
                exit: false,
            },
        ),
        EventView::Timeout { sink_empty } => if !c.has_sink {
            (c, idle())
        } else if sink_empty {
            (
                CoreView { has_sink: false, current_path: None, clock_running: false, ..c },
                DecisionView {
                    sink: SinkAction::Drop,
                    clock: ClockAction::Stop,
                    report: Some(StatusView::Finished),
                    exit: false,
                },
            )
        } else if c.clock_running {
            match c.current_path {
                Some(path) => (
                    c,
                    DecisionView {
                        report: Some(StatusView::Playing {
                            path,
                            position: c.paused_position.plus(since_start),
                        }),
                        ..idle()
                    },
                ),
                None => (c, idle()),
            }
        } else {
            (c, idle())
        },
        EventView::Disconnected => (c, DecisionView { exit: true, ..idle() }),
    }
}

impl PlayerCore {
    /// Whether deciding on `event` adds the running time to the paused
    /// position (the event for which `step` needs the sum to fit).
    pub fn reads_clock_on(&self, event: &PlayerEvent) -> (r: bool)
        ensures
            r == reads_clock(self@, event@),
    {
        let timing_event = match event {
            PlayerEvent::Pause => true,
            PlayerEvent::Timeout { sink_empty } => !*sink_empty && self.current_path.is_some(),
            _ => false,
        };
        self.has_sink && self.clock_running && timing_event
    }

    /// The paused position is a valid span.
    pub open spec fn wf(&self) -> bool {
        self.paused_position.wf()
    }

    /// The state before any command: nothing loaded, clock stopped, position
    /// zero.
    pub fn new() -> (r: PlayerCore)
        ensures
            r.wf(),
            r@ == (CoreView {
                has_sink: false,
                current_path: None,
                clock_running: false,
                paused_position: zero_span(),
            }),
    {
        PlayerCore {
            has_sink: false,
            current_path: None,
            clock_running: false,
            paused_position: TimeSpan::zero(),
        }
    }

    /// Decides what the player thread does on one event. `since_start` is
    /// the time since the clock last started; it is read only while the
    /// clock runs.
    pub fn step(&mut self, event: PlayerEvent, since_start: TimeSpan) -> (d: PlayerDecision)
        requires
            old(self).wf(),
            since_start.wf(),
            reads_clock(old(self)@, event@) ==> old(self).paused_position.can_add(since_start),
        ensures
            final(self).wf(),
            (final(self)@, d@) == player_step(old(self)@, event@, since_start),
    {
        let idle = PlayerDecision {
            sink: SinkAction::Keep,
            clock: ClockAction::Keep,
            report: None,
            exit: false,
        };
        match event {
            PlayerEvent::Play { path, opened } => match opened {
                Ok(()) => {
                    let shown = path.clone();
                    self.has_sink = true;
                    self.current_path = Some(path);
                    self.clock_running = true;
                    self.paused_position = TimeSpan::zero();
                    PlayerDecision {
                        sink: SinkAction::Install,
                        clock: ClockAction::Start,
                        report: Some(PlayerStatus::Playing { path: shown, position: TimeSpan::zero() }),
                        exit: false,
                    }
                },
                Err(error) => {
                    let mut message = String::from_str("couldn't play ");
                    message.append(path.as_str());
                    message.append(": ");
                    message.append(error.as_str());
                    PlayerDecision { report: Some(PlayerStatus::Error(message)), ..idle }
                },
            },
            PlayerEvent::Pause => {
                if self.has_sink {
                    let running = if self.clock_running {
                        Some(since_start)
                    } else {
                        None
                    };
                    let position = elapsed_position(running, self.paused_position);
                    self.paused_position = position;
                    self.clock_running = false;
                    PlayerDecision {
                        sink: SinkAction::Pause,
                        clock: ClockAction::Stop,
                        report: Some(PlayerStatus::Paused { position }),
                        exit: false,
                    }
                } else {
                    idle
                }
            },
            PlayerEvent::Resume => {
                if self.has_sink {
                    self.clock_running = true;
                    let report = match &self.current_path {
                        Some(path) => Some(
                            PlayerStatus::Playing { path: path.clone(), position: self.paused_position },
                        ),
                        None => None,
                    };
                    PlayerDecision {
                        sink: SinkAction::Resume,
                        clock: ClockAction::Start,
                        report,
                        exit: false,
                    }
                } else {
                    idle
                }
            },
            PlayerEvent::Stop => {
                self.has_sink = false;
                self.current_path = None;
                self.clock_running = false;
                self.paused_position = TimeSpan::zero();
                PlayerDecision {
                    sink: SinkAction::Drop,
                    clock: ClockAction::Stop,
                    report: Some(PlayerStatus::Stopped),
                    exit: false,
                }
            },
            PlayerEvent::Timeout { sink_empty } => {
                if !self.has_sink {
                    idle
                } else if sink_empty {
                    self.has_sink = false;
                    self.current_path = None;
                    self.clock_running = false;
                    PlayerDecision {
                        sink: SinkAction::Drop,
                        clock: ClockAction::Stop,
                        report: Some(PlayerStatus::Finished),
                        exit: false,
                    }
                } else if self.clock_running {
                    match &self.current_path {
                        Some(path) => {
                            let position = elapsed_position(Some(since_start), self.paused_position);
                            PlayerDecision {
                                report: Some(PlayerStatus::Playing { path: path.clone(), position }),
                                ..idle
                            }
                        },
                        None => idle,
                    }
                } else {
                    idle
                }
            },
            PlayerEvent::Disconnected => PlayerDecision { exit: true, ..idle },
        }
    }
}

} // verus!

verus! {

/// The state after a stop: nothing loaded, clock stopped, position zero.
pub open spec fn stopped_core() -> CoreView {
    CoreView { has_sink: false, current_path: None, clock_running: false, paused_position: zero_span() }
}

/// After a stop nothing is loaded: pausing, resuming and waiting do nothing
/// and report nothing.
pub proof fn law_stop_unloads(c: CoreView, e: EventView, since_start: TimeSpan, later: TimeSpan)
    requires
        e is Pause || e is Resume || e is Timeout,
    ensures
        player_step(c, EventView::Stop, since_start).0 == stopped_core(),
        player_step(c, EventView::Stop, since_start).1.report == Some(StatusView::Stopped),
        player_step(stopped_core(), e, later) == (stopped_core(), idle()),
{
}

/// Pausing and then resuming reports the track playing again from the
/// position that the pause reported.
pub proof fn law_resume_continues_from_pause(c: CoreView, t1: TimeSpan, t2: TimeSpan)
    requires
        c.has_sink,
        c.current_path is Some,
    ensures
        ({
            let (paused, d1) = player_step(c, EventView::Pause, t1);
            let (_, d2) = player_step(paused, EventView::Resume, t2);
            d1.report matches Some(StatusView::Paused { position }) && d2.report == Some(
                StatusView::Playing { path: c.current_path.unwrap(), position },
            )
        }),
{
}

/// "Finished" is reported only when a loaded track drained on its own
/// (never for a manual stop).
pub proof fn law_finished_only_when_drained(c: CoreView, e: EventView, since_start: TimeSpan)
    ensures
        player_step(c, e, since_start).1.report == Some(StatusView::Finished) ==> c.has_sink && e
            == (EventView::Timeout { sink_empty: true }),
{
}

/// A track that opened starts playing at position zero, and is reported so.
pub proof fn law_play_starts_at_zero(c: CoreView, path: Seq<char>, since_start: TimeSpan)
    ensures
        ({
            let (next, d) = player_step(c, EventView::Play { path, opened: Ok(()) }, since_start);
            &&& next.current_path == Some(path)
            &&& next.paused_position == zero_span()
            &&& d.report == Some(StatusView::Playing { path, position: zero_span() })
        }),
{
}

/// A file that could not be opened changes nothing and reports an error
/// that names it.
pub proof fn law_failed_play_changes_nothing(
    c: CoreView,
    path: Seq<char>,
    error: Seq<char>,
    since_start: TimeSpan,
)
    ensures
        player_step(c, EventView::Play { path, opened: Err(error) }, since_start) == (
            c,
            DecisionView {
                report: Some(StatusView::Error(play_error_message(path, error))),
                ..idle()
            },
        ),
{
}

/// While a track plays, every tick reports a fresh position (the paused
/// position plus the running time); while paused, ticks report nothing.
pub proof fn law_ticks_report_position_only_while_playing(c: CoreView, since_start: TimeSpan)
    requires
        c.has_sink,
        c.current_path is Some,
    ensures
        c.clock_running ==> player_step(c, EventView::Timeout { sink_empty: false }, since_start).1.report
            == Some(
            StatusView::Playing {
                path: c.current_path.unwrap(),
                position: c.paused_position.plus(since_start),
            },
        ),
        !c.clock_running ==> player_step(c, EventView::Timeout { sink_empty: false }, since_start).1.report
            is None,
        player_step(c, EventView::Timeout { sink_empty: false }, since_start).0 == c,
{
}

/// The player thread's decisions over a sequence of events, one time
/// since the clock started per event.
pub open spec fn run_events(c: CoreView, es: Seq<EventView>, ts: Seq<TimeSpan>) -> (CoreView, Seq<DecisionView>)
    decreases es.len(),
{
    if es.len() == 0 || ts.len() == 0 {
        (c, Seq::empty())
    } else {
        let (w, ds) = run_events(c, es.drop_last(), ts.drop_last());
        let (x, d) = player_step(w, es.last(), ts.last());
        (x, ds.push(d))
    }
}

/// The event is a track that opened and started playing.
pub open spec fn opens_track(e: EventView) -> bool {
    e matches EventView::Play { opened: Ok(_), .. }
}

/// How many of the decisions report a finished track.
pub open spec fn finished_count(ds: Seq<DecisionView>) -> nat
    decreases ds.len(),
{
    if ds.len() == 0 {
        0
    } else {
        finished_count(ds.drop_last()) + if ds.last().report == Some(StatusView::Finished) {
            1nat
        } else {
            0nat
        }
    }
}

/// Until a new track opens, a player with nothing loaded (after a stop or
/// a finish) stays unloaded: pauses, resumes and ticks change nothing and
/// report nothing, and no track is reported finished.
pub proof fn law_unloaded_player_stays_quiet(c: CoreView, es: Seq<EventView>, ts: Seq<TimeSpan>)
    requires
        !c.has_sink,
        es.len() == ts.len(),
        forall|i: int| 0 <= i < es.len() ==> !opens_track(#[trigger] es[i]),
    ensures
        !run_events(c, es, ts).0.has_sink,
        run_events(c, es, ts).1.len() == es.len(),
        forall|i: int| 0 <= i < es.len() ==> #[trigger] run_events(c, es, ts).1[i].report != Some(StatusView::Finished),
        forall|i: int|
            0 <= i < es.len() && (es[i] is Pause || es[i] is Resume || es[i] is Timeout) ==> #[trigger] run_events(
                c,
                es,
                ts,
            ).1[i] == idle(),
    decreases es.len(),
{
    if es.len() > 0 {
        let es0 = es.drop_last();
        let ts0 = ts.drop_last();
        assert forall|i: int| 0 <= i < es0.len() implies !opens_track(#[trigger] es0[i]) by {
            assert(es0[i] == es[i]);
        }
        law_unloaded_player_stays_quiet(c, es0, ts0);
        assert(!opens_track(es[es.len() - 1]));
        let (w, ds) = run_events(c, es0, ts0);
        assert forall|i: int| 0 <= i < es.len() implies #[trigger] run_events(c, es, ts).1[i].report != Some(
            StatusView::Finished,
        ) by {
            if i < es.len() - 1 {
                assert(es0[i] == es[i]);
            }
        }
        assert forall|i: int|
            0 <= i < es.len() && (es[i] is Pause || es[i] is Resume || es[i] is Timeout) implies #[trigger] run_events(
            c,
            es,
            ts,
        ).1[i] == idle() by {
            if i < es.len() - 1 {
                assert(es0[i] == es[i]);
            }
        }
    }
}

/// Without a new track opening, at most one finish is reported, and none
/// when nothing was loaded to begin with.
pub proof fn law_finished_at_most_once(c: CoreView, es: Seq<EventView>, ts: Seq<TimeSpan>)
    requires
        es.len() == ts.len(),
        forall|i: int| 0 <= i < es.len() ==> !opens_track(#[trigger] es[i]),
    ensures
        finished_count(run_events(c, es, ts).1) + (if run_events(c, es, ts).0.has_sink { 1nat } else { 0nat })
            <= (if c.has_sink { 1nat } else { 0nat }),
        finished_count(run_events(c, es, ts).1) <= 1,
    decreases es.len(),
{
    if es.len() > 0 {
        let es0 = es.drop_last();
        let ts0 = ts.drop_last();
        assert forall|i: int| 0 <= i < es0.len() implies !opens_track(#[trigger] es0[i]) by {
            assert(es0[i] == es[i]);
        }
        law_finished_at_most_once(c, es0, ts0);
        assert(!opens_track(es[es.len() - 1]));
        let (w, ds) = run_events(c, es0, ts0);
        assert(run_events(c, es, ts).1.drop_last() =~= ds);
    }
}

/// While the clock is stopped (paused or unloaded), ticks of a sink that
/// has not drained change nothing and report nothing; so a resume after a
/// pause and any number of such ticks reports the paused position.
pub proof fn law_paused_ticks_change_nothing(c: CoreView, es: Seq<EventView>, ts: Seq<TimeSpan>)
    requires
        !c.clock_running,
        es.len() == ts.len(),
        forall|i: int| 0 <= i < es.len() ==> #[trigger] es[i] == (EventView::Timeout { sink_empty: false }),
    ensures
        run_events(c, es, ts).0 == c,
        run_events(c, es, ts).1.len() == es.len(),
        forall|i: int| 0 <= i < es.len() ==> #[trigger] run_events(c, es, ts).1[i] == idle(),
    decreases es.len(),
{
    if es.len() > 0 {
        let es0 = es.drop_last();
        let ts0 = ts.drop_last();
        assert forall|i: int| 0 <= i < es0.len() implies #[trigger] es0[i] == (EventView::Timeout {
            sink_empty: false,
        }) by {
            assert(es0[i] == es[i]);
        }
        law_paused_ticks_change_nothing(c, es0, ts0);
        assert(es[es.len() - 1] == (EventView::Timeout { sink_empty: false }));
        let ds = run_events(c, es0, ts0).1;
        assert forall|i: int| 0 <= i < es.len() implies #[trigger] run_events(c, es, ts).1[i] == idle() by {
            if i < es.len() - 1 {
                assert(run_events(c, es, ts).1[i] == ds[i]);
            }
        }
    }
}

/// The sum of two valid spans, as `plus` computes it, is a valid span
/// holding the two spans' nanoseconds together.
pub proof fn lemma_plus_adds(a: TimeSpan, b: TimeSpan)
    requires
        a.wf(),
        b.wf(),
        a.can_add(b),
    ensures
        a.plus(b).wf(),
        a.plus(b).total_nanos() == a.total_nanos() + b.total_nanos(),
{
}

/// Pausing while the clock runs keeps the time played before: the pause
/// reports, and stores as the paused position, the paused position plus
/// the running time, which is what a tick at the same moment reports.
pub proof fn law_pause_keeps_time_played(c: CoreView, since_start: TimeSpan)
    requires
        c.has_sink,
        c.clock_running,
        c.current_path is Some,
        c.paused_position.wf(),
        since_start.wf(),
        c.paused_position.can_add(since_start),
    ensures
        ({
            let (next, d) = player_step(c, EventView::Pause, since_start);
            let tick = player_step(c, EventView::Timeout { sink_empty: false }, since_start).1;
            &&& d.report matches Some(StatusView::Paused { position }) && tick.report == Some(
                StatusView::Playing { path: c.current_path.unwrap(), position },
            )
            &&& next.paused_position.total_nanos() == c.paused_position.total_nanos()
                + since_start.total_nanos()
            &&& d.report == Some(StatusView::Paused { position: next.paused_position })
            &&& !next.clock_running
        }),
{
    lemma_plus_adds(c.paused_position, since_start);
}

} // verus!
