use vstd::prelude::*;
use crate::command::{Command, Key, key_command};
use crate::position::{PlaybackState, PositionAnchor, Tracker, clamp, position_at};
use crate::render::{status_line, status_line_text};

verus! {

/// Why the loop ended.
#[derive(Clone, Copy, Debug, PartialEq, Eq, Structural)]
pub enum Termination {
    Quit,
    Finished,
}

/// Whether the control loop still runs.
#[derive(Clone, Copy, Debug, PartialEq, Eq, Structural)]
pub enum LoopStatus {
    Running,
    Terminated(Termination),
}

/// What the driver of the loop must do to the engine after a tick.
#[derive(Clone, Copy, Debug, PartialEq, Eq, Structural)]
pub enum Action {
    /// Nothing this tick.
    Wait,
    /// Resume the engine.
    Play,
    /// Pause the engine.
    Pause,
    /// Ask the engine to seek to this position (milliseconds) and report the
    /// answer through `seek_result`.
    Seek(u64),
    /// Leave the loop.
    Stop(Termination),
}

/// The loop status after one tick with command `cmd`, given whether the
/// engine reported exhaustion.
pub open spec fn next_status(status: LoopStatus, cmd: Option<Command>, finished: bool) -> LoopStatus {
    match status {
        LoopStatus::Terminated(t) => LoopStatus::Terminated(t),
        LoopStatus::Running => match cmd {
            Some(Command::Quit) => LoopStatus::Terminated(Termination::Quit),
            Some(_) => LoopStatus::Running,
            None => if finished {
                LoopStatus::Terminated(Termination::Finished)
            } else {
                LoopStatus::Running
            },
        },
    }
}

/// The status after running the ticks of `ticks` in order from `status`;
/// each tick is the command polled (if any) and whether the engine reported
/// exhaustion.
pub open spec fn run_status(status: LoopStatus, ticks: Seq<(Option<Command>, bool)>) -> LoopStatus
    decreases ticks.len(),
{
    if ticks.len() == 0 {
        status
    } else {
        run_status(next_status(status, ticks[0].0, ticks[0].1), ticks.drop_first())
    }
}

/// A tick that ends a running loop.
pub open spec fn stops(tick: (Option<Command>, bool)) -> bool {
    tick.0 == Some(Command::Quit) || (tick.0.is_none() && tick.1)
}

/// The state the control loop owns: position tracking and loop status.
#[derive(Clone, Copy, Debug, PartialEq, Eq, Structural)]
pub struct Session {
    pub tracker: Tracker,
    pub status: LoopStatus,
}

impl Session {
    pub open spec fn wf(self) -> bool {
        self.tracker.wf()
    }

    /// A running session, playing from offset zero, anchored at `now`.
    pub fn new(total: u64, now: u64) -> (r: Session)
        ensures
            r.wf(),
            r.status == LoopStatus::Running,
            r.tracker == (Tracker {
                state: PlaybackState::Playing,
                anchor: PositionAnchor { frozen_offset: 0, anchor_time: now },
                total,
            }),
    {
        Session { tracker: Tracker::start(total, now), status: LoopStatus::Running }
    }

    /// The position at `now`.
    pub fn position(&self, now: u64) -> (r: u64)
        requires
            self.wf(),
            now >= self.tracker.anchor.anchor_time,
            self.tracker.fits_at(now as int),
        ensures
            r == position_at(self.tracker, now as int),
    {
        self.tracker.current_position(now)
    }

    /// The status line to render at `now`.
    pub fn render(&self, now: u64) -> (r: String)
        requires
            self.wf(),
            now >= self.tracker.anchor.anchor_time,
            self.tracker.fits_at(now as int),
        ensures
            r@ == status_line_text(
                self.tracker.state == PlaybackState::Paused,
                position_at(self.tracker, now as int) as nat,
                self.tracker.total as nat,
            ),
    {
        let p = self.tracker.current_position(now);
        status_line(self.tracker.is_paused(), p, self.tracker.total)
    }

    /// One tick of the loop after the command (if any) was polled: applies
    /// the command to the session and says what the engine must do.
    pub fn tick(&mut self, cmd: Option<Command>, finished: bool, now: u64) -> (a: Action)
        requires
            old(self).wf(),
            now >= old(self).tracker.anchor.anchor_time,
            old(self).tracker.fits_at(now as int),
        ensures
            final(self).wf(),
            final(self).status == next_status(old(self).status, cmd, finished),
            ({
                let t = old(self).tracker;
                let pos = position_at(t, now as int);
                match old(self).status {
                    LoopStatus::Terminated(x) => a == Action::Stop(x) && final(self).tracker == t,
                    LoopStatus::Running => match cmd {
                        None => final(self).tracker == t && a == (if finished {
                            Action::Stop(Termination::Finished)
                        } else {
                            Action::Wait
                        }),
                        Some(Command::Quit) => final(self).tracker == t && a == Action::Stop(Termination::Quit),
                        Some(Command::TogglePause) => if t.state == PlaybackState::Playing {
                            a == Action::Pause && final(self).tracker == (Tracker {
                                state: PlaybackState::Paused,
                                anchor: PositionAnchor { frozen_offset: pos as u64, anchor_time: t.anchor.anchor_time },
                                total: t.total,
                            })
                        } else {
                            a == Action::Play && final(self).tracker == (Tracker {
                                state: PlaybackState::Playing,
                                anchor: PositionAnchor { frozen_offset: t.anchor.frozen_offset, anchor_time: now },
                                total: t.total,
                            })
                        },
                        Some(Command::SeekRelative(d)) => final(self).tracker == t && a == (if t.total == 0 {
                            Action::Wait
                        } else {
                            Action::Seek(clamp(pos + d, 0, t.total as int) as u64)
                        }),
                    },
                }
            }),
    {
        match self.status {
            LoopStatus::Terminated(x) => Action::Stop(x),
            LoopStatus::Running => match cmd {
                None => if finished {
                    self.status = LoopStatus::Terminated(Termination::Finished);
                    Action::Stop(Termination::Finished)
                } else {
                    Action::Wait
                },
                Some(Command::Quit) => {
                    self.status = LoopStatus::Terminated(Termination::Quit);
                    Action::Stop(Termination::Quit)
                },
                Some(Command::TogglePause) => if self.tracker.is_paused() {
                    self.tracker.resume(now);
                    Action::Play
                } else {
                    self.tracker.pause(now);
                    Action::Pause
                },
                Some(Command::SeekRelative(d)) => match self.tracker.seek_target_at(d, now) {
                    Some(target) => Action::Seek(target),
                    None => Action::Wait,
                },
            },
        }
    }

    /// Records the engine's answer to the seek that `tick` asked for.
    pub fn seek_result(&mut self, target: u64, succeeded: bool, now: u64)
        requires
            old(self).wf(),
            old(self).tracker.total > 0 ==> target <= old(self).tracker.total,
        ensures
            final(self).wf(),
            final(self).status == old(self).status,
            succeeded ==> final(self).tracker == (Tracker {
                state: old(self).tracker.state,
                anchor: PositionAnchor { frozen_offset: target, anchor_time: now },
                total: old(self).tracker.total,
            }),
            !succeeded ==> final(self).tracker == old(self).tracker,
    {
        self.tracker.seek_result(target, succeeded, now);
    }
}

/// A running loop ends as finished exactly when, at the first tick that
/// stops it, no quit command came and the engine reported exhaustion.
pub proof fn lemma_finished_iff_exhausted_without_quit(ticks: Seq<(Option<Command>, bool)>)
    ensures
        (run_status(LoopStatus::Running, ticks) == LoopStatus::Terminated(Termination::Finished)) <==> (
            exists|k: int| #![trigger ticks[k]]
                0 <= k < ticks.len() && ticks[k].0.is_none() && ticks[k].1
                    && forall|j: int| 0 <= j < k ==> !stops(#[trigger] ticks[j])
        ),
    decreases ticks.len(),
{
    if ticks.len() > 0 {
        let first = ticks[0];
        let rest = ticks.drop_first();
        let next = next_status(LoopStatus::Running, first.0, first.1);
        if first.0 == Some(Command::Quit) {
            lemma_terminated_stays(Termination::Quit, rest);
            assert(!stops(ticks[0]) == false);
        } else if first.0.is_none() && first.1 {
            lemma_terminated_stays(Termination::Finished, rest);
            assert(forall|j: int| 0 <= j < 0 ==> !stops(#[trigger] ticks[j]));
        } else {
            assert(next == LoopStatus::Running);
            lemma_finished_iff_exhausted_without_quit(rest);
            if exists|k: int| #![trigger rest[k]]
                0 <= k < rest.len() && rest[k].0.is_none() && rest[k].1
                    && forall|j: int| 0 <= j < k ==> !stops(#[trigger] rest[j]) {
                let k = choose|k: int| #![trigger rest[k]]
                    0 <= k < rest.len() && rest[k].0.is_none() && rest[k].1
                        && forall|j: int| 0 <= j < k ==> !stops(#[trigger] rest[j]);
                assert(ticks[k + 1] == rest[k]);
                assert forall|j: int| 0 <= j < k + 1 implies !stops(#[trigger] ticks[j]) by {
                    if j > 0 {
                        assert(ticks[j] == rest[j - 1]);
                    }
                }
            }
            if exists|k: int| #![trigger ticks[k]]
                0 <= k < ticks.len() && ticks[k].0.is_none() && ticks[k].1
                    && forall|j: int| 0 <= j < k ==> !stops(#[trigger] ticks[j]) {
                let k = choose|k: int| #![trigger ticks[k]]
                    0 <= k < ticks.len() && ticks[k].0.is_none() && ticks[k].1
                        && forall|j: int| 0 <= j < k ==> !stops(#[trigger] ticks[j]);
                assert(k > 0);
                assert(rest[k - 1] == ticks[k]);
                assert forall|j: int| 0 <= j < k - 1 implies !stops(#[trigger] rest[j]) by {
                    assert(rest[j] == ticks[j + 1]);
                }
            }
        }
    }
}

/// Once terminated, the loop stays terminated for the same reason.
pub proof fn lemma_terminated_stays(x: Termination, ticks: Seq<(Option<Command>, bool)>)
    ensures
        run_status(LoopStatus::Terminated(x), ticks) == LoopStatus::Terminated(x),
    decreases ticks.len(),
{
    if ticks.len() > 0 {
        lemma_terminated_stays(x, ticks.drop_first());
    }
}

/// Quit or escape ends a running loop within the tick that sees it, whether
/// playing or paused and whatever the engine reports.
pub proof fn lemma_quit_key_stops(k: Key, finished: bool)
    requires
        k == Key::Char('q') || k == Key::Esc,
    ensures
        next_status(LoopStatus::Running, key_command(k), finished) == LoopStatus::Terminated(Termination::Quit),
{
}

} // verus!
