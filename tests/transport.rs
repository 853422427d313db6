use quickplay::command::{command_for_key, Command, Key, POLL_TIMEOUT_MS, SEEK_STEP_MS};
use quickplay::control::{Action, LoopStatus, Session, Termination};
use quickplay::position::{seek_target, PlaybackState, PositionAnchor, Tracker};
use quickplay::render::{format_position, status_line};

const TOTAL: u64 = 130_000;

fn position_line(s: &Session, now: u64) -> String {
    format_position(s.position(now), s.tracker.total)
}

#[test]
fn plays_twelve_seconds_without_input() {
    let mut s = Session::new(TOTAL, 0);
    assert_eq!(s.tick(None, false, 12_000), Action::Wait);
    assert_eq!(position_line(&s, 12_000), "00:12 / 02:10");
    assert_eq!(s.status, LoopStatus::Running);
}

#[test]
fn pause_freezes_position_for_five_seconds() {
    let mut s = Session::new(TOTAL, 0);
    assert_eq!(s.tick(Some(Command::TogglePause), false, 12_000), Action::Pause);
    assert_eq!(s.tracker.state, PlaybackState::Paused);
    assert_eq!(s.tracker.anchor.frozen_offset, 12_000);
    assert_eq!(position_line(&s, 17_000), "00:12 / 02:10");
}

#[test]
fn seek_forward_while_paused() {
    let mut s = Session::new(TOTAL, 0);
    s.tick(Some(Command::TogglePause), false, 12_000);
    let a = s.tick(Some(Command::SeekRelative(SEEK_STEP_MS)), false, 17_000);
    assert_eq!(a, Action::Seek(22_000));
    s.seek_result(22_000, true, 17_000);
    assert_eq!(s.tracker.anchor.frozen_offset, 22_000);
    assert_eq!(s.position(17_000), 22_000);
    assert_eq!(s.tracker.state, PlaybackState::Paused);
}

#[test]
fn resume_then_clamp_and_finish() {
    let mut s = Session::new(TOTAL, 0);
    s.tick(Some(Command::TogglePause), false, 12_000);
    s.tick(Some(Command::SeekRelative(SEEK_STEP_MS)), false, 17_000);
    s.seek_result(22_000, true, 17_000);
    assert_eq!(s.tick(Some(Command::TogglePause), false, 17_000), Action::Play);
    assert_eq!(position_line(&s, 217_000), "02:10 / 02:10");
    assert_eq!(s.tick(None, true, 217_000), Action::Stop(Termination::Finished));
    assert_eq!(s.status, LoopStatus::Terminated(Termination::Finished));
}

#[test]
fn seek_back_from_five_seconds_clamps_at_zero() {
    let mut s = Session::new(TOTAL, 0);
    let a = s.tick(Some(Command::SeekRelative(-SEEK_STEP_MS)), false, 5_000);
    assert_eq!(a, Action::Seek(0));
    assert_eq!(seek_target(5_000, -10_000, TOTAL), 0);
}

#[test]
fn failed_seek_changes_nothing() {
    let mut s = Session::new(TOTAL, 0);
    s.tick(None, false, 3_000);
    let before = s.tracker;
    let a = s.tick(Some(Command::SeekRelative(SEEK_STEP_MS)), false, 4_000);
    assert_eq!(a, Action::Seek(14_000));
    s.seek_result(14_000, false, 4_000);
    assert_eq!(s.tracker, before);
    assert_eq!(s.status, LoopStatus::Running);
    assert_eq!(s.position(5_000), 5_000);
}

#[test]
fn clamped_seek_stays_in_range() {
    assert_eq!(seek_target(0, i64::MIN, 1), 0);
    assert_eq!(seek_target(u64::MAX, i64::MAX, 1), 1);
    assert_eq!(seek_target(60_000, 90_000, TOTAL), TOTAL);
    assert_eq!(seek_target(60_000, -15_000, TOTAL), 45_000);
    assert_eq!(seek_target(60_000, 0, TOTAL), 60_000);
}

#[test]
fn paused_position_ignores_wall_clock() {
    let mut t = Tracker::start(TOTAL, 1_000);
    t.pause(4_000);
    assert_eq!(t.current_position(4_000), 3_000);
    assert_eq!(t.current_position(1_000_000), 3_000);
    assert_eq!(t.anchor.anchor_time, 1_000);
}

#[test]
fn playing_position_grows_and_caps() {
    let t = Tracker::start(TOTAL, 0);
    let mut last = 0;
    for now in [0, 1, 999, 60_000, 129_999, 130_000, 130_001, 500_000] {
        let p = t.current_position(now);
        assert!(p >= last);
        assert!(p <= TOTAL);
        last = p;
    }
    assert_eq!(t.current_position(500_000), TOTAL);
}

#[test]
fn unknown_total_does_not_cap() {
    let t = Tracker::start(0, 0);
    assert_eq!(t.current_position(500_000), 500_000);
    assert_eq!(t.seek_target_at(10_000, 1_000), None);
}

#[test]
fn seek_with_unknown_total_is_a_no_op() {
    let mut s = Session::new(0, 0);
    let before = s.tracker;
    assert_eq!(s.tick(Some(Command::SeekRelative(SEEK_STEP_MS)), false, 2_000), Action::Wait);
    assert_eq!(s.tracker, before);
}

#[test]
fn successful_seek_lands_on_target_while_playing() {
    let mut t = Tracker::start(TOTAL, 0);
    let target = t.seek_target_at(-10_000, 50_000).unwrap();
    assert_eq!(target, 40_000);
    t.seek_result(target, true, 50_000);
    assert_eq!(t.current_position(50_000), 40_000);
    assert_eq!(t.anchor, PositionAnchor { frozen_offset: 40_000, anchor_time: 50_000 });
    assert_eq!(t.current_position(51_000), 41_000);
}

#[test]
fn resume_restarts_the_clock() {
    let mut t = Tracker::start(TOTAL, 0);
    t.pause(10_000);
    t.resume(30_000);
    assert_eq!(t.state, PlaybackState::Playing);
    assert_eq!(t.current_position(35_000), 15_000);
    t.resume(40_000);
    assert_eq!(t.anchor.anchor_time, 30_000);
}

#[test]
fn quit_keys_stop_in_any_state() {
    for key in [Key::Char('q'), Key::Esc] {
        let cmd = command_for_key(key);
        assert_eq!(cmd, Some(Command::Quit));
        let mut playing = Session::new(TOTAL, 0);
        assert_eq!(playing.tick(cmd, false, 1_000), Action::Stop(Termination::Quit));
        assert_eq!(playing.status, LoopStatus::Terminated(Termination::Quit));
        let mut paused = Session::new(TOTAL, 0);
        paused.tick(Some(Command::TogglePause), false, 1_000);
        assert_eq!(paused.tick(cmd, true, 2_000), Action::Stop(Termination::Quit));
        assert_eq!(paused.status, LoopStatus::Terminated(Termination::Quit));
    }
}

#[test]
fn finished_only_without_command() {
    let mut s = Session::new(TOTAL, 0);
    assert_eq!(s.tick(Some(Command::TogglePause), true, 1_000), Action::Pause);
    assert_eq!(s.status, LoopStatus::Running);
    assert_eq!(s.tick(None, false, 2_000), Action::Wait);
    assert_eq!(s.status, LoopStatus::Running);
    assert_eq!(s.tick(None, true, 3_000), Action::Stop(Termination::Finished));
    assert_eq!(s.tick(Some(Command::Quit), false, 4_000), Action::Stop(Termination::Finished));
    assert_eq!(s.status, LoopStatus::Terminated(Termination::Finished));
}

#[test]
fn key_bindings() {
    assert_eq!(command_for_key(Key::Char(' ')), Some(Command::TogglePause));
    assert_eq!(command_for_key(Key::Left), Some(Command::SeekRelative(-10_000)));
    assert_eq!(command_for_key(Key::Right), Some(Command::SeekRelative(10_000)));
    assert_eq!(command_for_key(Key::Char('x')), None);
    assert_eq!(command_for_key(Key::Char('Q')), None);
    assert_eq!(command_for_key(Key::Other), None);
    assert_eq!(POLL_TIMEOUT_MS, 200);
}

#[test]
fn formats_clock_values() {
    assert_eq!(format_position(0, 0), "00:00 / 00:00");
    assert_eq!(format_position(59_999, 3_600_000), "00:59 / 60:00");
    assert_eq!(format_position(6_000_000, 6_039_000), "100:00 / 100:39");
}

#[test]
fn formats_status_line() {
    assert_eq!(
        status_line(false, 12_000, TOTAL),
        "\rStatus: Playing | Position: 00:12 / 02:10 | Controls: [Space] Pause/Play, [<-] Rewind 10s, [->] Forward 10s, [q] Quit  "
    );
    let mut s = Session::new(TOTAL, 0);
    s.tick(Some(Command::TogglePause), false, 12_000);
    assert!(s.render(20_000).starts_with("\rStatus: Paused | Position: 00:12 / 02:10 |"));
}
