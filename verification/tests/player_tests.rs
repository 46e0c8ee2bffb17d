use groovy::player::{ClockAction, PlayerCore, PlayerEvent, PlayerStatus, SinkAction};
use groovy::timing::{elapsed_position, TimeSpan};

fn playing(core: &mut PlayerCore) {
    let d = core.step(
        PlayerEvent::Play { path: "/m/a.mp3".to_string(), opened: Ok(()) },
        TimeSpan::zero(),
    );
    assert_eq!(d.sink, SinkAction::Install);
    assert_eq!(d.clock, ClockAction::Start);
    assert_eq!(
        d.report,
        Some(PlayerStatus::Playing { path: "/m/a.mp3".to_string(), position: TimeSpan::zero() })
    );
    assert!(!d.exit);
}

#[test]
fn a_new_player_has_nothing_loaded() {
    let core = PlayerCore::new();
    assert!(!core.has_sink && !core.clock_running);
    assert!(core.current_path.is_none());
    assert_eq!(core.paused_position, TimeSpan::zero());
}

#[test]
fn playing_a_file_loads_it_at_zero() {
    let mut core = PlayerCore::new();
    playing(&mut core);
    assert!(core.has_sink && core.clock_running);
    assert_eq!(core.current_path, Some("/m/a.mp3".to_string()));
}

#[test]
fn a_file_that_fails_to_open_reports_an_error_and_changes_nothing() {
    let mut core = PlayerCore::new();
    playing(&mut core);
    let d = core.step(
        PlayerEvent::Play { path: "/m/b.mp3".to_string(), opened: Err("bad header".to_string()) },
        TimeSpan::zero(),
    );
    assert_eq!(d.sink, SinkAction::Keep);
    assert_eq!(d.clock, ClockAction::Keep);
    assert_eq!(d.report, Some(PlayerStatus::Error("couldn't play /m/b.mp3: bad header".to_string())));
    assert_eq!(core.current_path, Some("/m/a.mp3".to_string()));
}

#[test]
fn pause_then_resume_continues_from_the_paused_position() {
    let mut core = PlayerCore::new();
    playing(&mut core);
    let d = core.step(PlayerEvent::Pause, TimeSpan::new(12, 500_000_000));
    assert_eq!(d.sink, SinkAction::Pause);
    assert_eq!(d.clock, ClockAction::Stop);
    assert_eq!(d.report, Some(PlayerStatus::Paused { position: TimeSpan::new(12, 500_000_000) }));
    // while paused the running time is not read
    let d = core.step(PlayerEvent::Timeout { sink_empty: false }, TimeSpan::new(99, 0));
    assert_eq!(d.report, None);
    let d = core.step(PlayerEvent::Resume, TimeSpan::new(99, 0));
    assert_eq!(d.sink, SinkAction::Resume);
    assert_eq!(d.clock, ClockAction::Start);
    assert_eq!(
        d.report,
        Some(PlayerStatus::Playing { path: "/m/a.mp3".to_string(), position: TimeSpan::new(12, 500_000_000) })
    );
    let d = core.step(PlayerEvent::Timeout { sink_empty: false }, TimeSpan::new(1, 600_000_000));
    assert_eq!(
        d.report,
        Some(PlayerStatus::Playing { path: "/m/a.mp3".to_string(), position: TimeSpan::new(14, 100_000_000) })
    );
}

#[test]
fn a_drained_sink_reports_finished() {
    let mut core = PlayerCore::new();
    playing(&mut core);
    let d = core.step(PlayerEvent::Timeout { sink_empty: true }, TimeSpan::new(3, 0));
    assert_eq!(d.sink, SinkAction::Drop);
    assert_eq!(d.report, Some(PlayerStatus::Finished));
    assert!(!core.has_sink && core.current_path.is_none());
    let d = core.step(PlayerEvent::Timeout { sink_empty: true }, TimeSpan::new(3, 0));
    assert_eq!(d.report, None);
}

#[test]
fn stop_unloads_and_reports_stopped() {
    let mut core = PlayerCore::new();
    playing(&mut core);
    let d = core.step(PlayerEvent::Stop, TimeSpan::new(3, 0));
    assert_eq!(d.sink, SinkAction::Drop);
    assert_eq!(d.report, Some(PlayerStatus::Stopped));
    assert_eq!(core.paused_position, TimeSpan::zero());
    let d = core.step(PlayerEvent::Pause, TimeSpan::new(3, 0));
    assert_eq!(d.sink, SinkAction::Keep);
    assert_eq!(d.report, None);
    let d = core.step(PlayerEvent::Resume, TimeSpan::new(3, 0));
    assert_eq!(d.report, None);
}

#[test]
fn a_closed_channel_ends_the_thread() {
    let mut core = PlayerCore::new();
    let d = core.step(PlayerEvent::Disconnected, TimeSpan::zero());
    assert!(d.exit);
    assert_eq!(d.report, None);
}

#[test]
fn spans_add_with_a_carry() {
    let a = TimeSpan::new(1, 600_000_000);
    let b = TimeSpan::new(0, 500_000_000);
    assert_eq!(a.add(b), TimeSpan::new(2, 100_000_000));
    assert_eq!(a.as_secs(), 1);
    assert_eq!(elapsed_position(None, a), a);
    assert_eq!(elapsed_position(Some(b), a), TimeSpan::new(2, 100_000_000));
}

#[test]
fn sums_that_overflow_the_seconds_are_detected() {
    let big = TimeSpan::new(u64::MAX, 600_000_000);
    assert!(big.sum_fits(TimeSpan::new(0, 300_000_000)));
    assert!(!big.sum_fits(TimeSpan::new(0, 500_000_000)));
    assert!(!big.sum_fits(TimeSpan::new(1, 0)));
}

#[test]
fn only_pauses_and_ticks_while_playing_read_the_clock() {
    let mut core = PlayerCore::new();
    assert!(!core.reads_clock_on(&PlayerEvent::Pause));
    playing(&mut core);
    assert!(core.reads_clock_on(&PlayerEvent::Pause));
    assert!(core.reads_clock_on(&PlayerEvent::Timeout { sink_empty: false }));
    assert!(!core.reads_clock_on(&PlayerEvent::Timeout { sink_empty: true }));
    assert!(!core.reads_clock_on(&PlayerEvent::Stop));
    assert!(!core.reads_clock_on(&PlayerEvent::Resume));
}

#[test]
fn after_a_finish_the_player_stays_quiet_until_a_new_track() {
    let mut core = PlayerCore::new();
    playing(&mut core);
    let mut finished = 0;
    for event in [
        PlayerEvent::Timeout { sink_empty: true },
        PlayerEvent::Pause,
        PlayerEvent::Resume,
        PlayerEvent::Timeout { sink_empty: true },
        PlayerEvent::Timeout { sink_empty: false },
    ] {
        let d = core.step(event, TimeSpan::new(1, 0));
        if d.report == Some(PlayerStatus::Finished) {
            finished += 1;
        } else {
            assert_eq!(d.report, None);
        }
    }
    assert_eq!(finished, 1);
    playing(&mut core);
}
