use vstd::prelude::*;

verus! {

/// Whether the stream is currently advancing.
#[derive(Clone, Copy, Debug, PartialEq, Eq, Structural)]
pub enum PlaybackState {
    Playing,
    Paused,
}

/// The pair from which elapsed playback time is derived: the position frozen
/// at the last transition and the monotonic time (milliseconds) of that
/// transition.
#[derive(Clone, Copy, Debug, PartialEq, Eq, Structural)]
pub struct PositionAnchor {
    pub frozen_offset: u64,
    pub anchor_time: u64,
}

/// Playback state, anchor and the stream's total duration (milliseconds;
/// zero when the source cannot report its length).
#[derive(Clone, Copy, Debug, PartialEq, Eq, Structural)]
pub struct Tracker {
    pub state: PlaybackState,
    pub anchor: PositionAnchor,
    pub total: u64,
}

/// Clamps `x` into `[lo, hi]`.
pub open spec fn clamp(x: int, lo: int, hi: int) -> int {
    if x < lo {
        lo
    } else if x > hi {
        hi
    } else {
        x
    }
}

/// Position of a tracker at time `now`: while playing, the frozen offset plus
/// the time elapsed since the anchor, capped at the total when it is known;
/// while paused, the frozen offset.
pub open spec fn position_at(t: Tracker, now: int) -> int {
    match t.state {
        PlaybackState::Paused => t.anchor.frozen_offset as int,
        PlaybackState::Playing => {
            let p = t.anchor.frozen_offset + (now - t.anchor.anchor_time);
            if t.total > 0 && p > t.total {
                t.total as int
            } else {
                p
            }
        },
    }
}

impl Tracker {
    /// A known total bounds the frozen offset.
    pub open spec fn wf(self) -> bool {
        self.total > 0 ==> self.anchor.frozen_offset <= self.total
    }

    /// The position computed at `now` fits in a `u64`.
    pub open spec fn fits_at(self, now: int) -> bool {
        position_at(self, now) <= u64::MAX
    }

    /// Playing from offset zero, anchored at `now`.
    pub fn start(total: u64, now: u64) -> (r: Tracker)
        ensures
            r.wf(),
            r.state == PlaybackState::Playing,
            r.anchor == (PositionAnchor { frozen_offset: 0, anchor_time: now }),
            r.total == total,
    {
        Tracker {
            state: PlaybackState::Playing,
            anchor: PositionAnchor { frozen_offset: 0, anchor_time: now },
            total,
        }
    }

    pub fn is_paused(&self) -> (r: bool)
        ensures
            r == (self.state == PlaybackState::Paused),
    {
        self.state == PlaybackState::Paused
    }

    /// The displayable elapsed position at `now`.
    pub fn current_position(&self, now: u64) -> (r: u64)
        requires
            self.wf(),
            now >= self.anchor.anchor_time,
            self.fits_at(now as int),
        ensures
            r == position_at(*self, now as int),
            self.total > 0 ==> r <= self.total,
    {
        match self.state {
            PlaybackState::Paused => self.anchor.frozen_offset,
            PlaybackState::Playing => {
                let elapsed: u64 = now - self.anchor.anchor_time;
                if self.total > 0 {
                    if elapsed >= self.total - self.anchor.frozen_offset {
                        self.total
                    } else {
                        self.anchor.frozen_offset + elapsed
                    }
                } else {
                    self.anchor.frozen_offset + elapsed
                }
            },
        }
    }

    /// Pauses: the position reached at `now` becomes the frozen offset.
    /// Pausing while already paused changes nothing.
    pub fn pause(&mut self, now: u64)
        requires
            old(self).wf(),
            now >= old(self).anchor.anchor_time,
            old(self).fits_at(now as int),
        ensures
            final(self).wf(),
            final(self).state == PlaybackState::Paused,
            final(self).anchor.frozen_offset == position_at(*old(self), now as int),
            final(self).anchor.anchor_time == old(self).anchor.anchor_time,
            final(self).total == old(self).total,
    {
        let p = self.current_position(now);
        self.anchor.frozen_offset = p;
        self.state = PlaybackState::Paused;
    }

    /// Resumes: time accrues again from `now`. Resuming while playing
    /// changes nothing.
    pub fn resume(&mut self, now: u64)
        requires
            old(self).wf(),
        ensures
            final(self).wf(),
            old(self).state == PlaybackState::Playing ==> *final(self) == *old(self),
            old(self).state == PlaybackState::Paused ==> *final(self) == (Tracker {
                state: PlaybackState::Playing,
                anchor: PositionAnchor { frozen_offset: old(self).anchor.frozen_offset, anchor_time: now },
                total: old(self).total,
            }),
    {
        if self.state == PlaybackState::Paused {
            self.anchor.anchor_time = now;
            self.state = PlaybackState::Playing;
        }
    }

    /// The clamped target of a relative seek of `delta` milliseconds from the
    /// position at `now`; `None` when the total is unknown, where seeking is
    /// a no-op.
    pub fn seek_target_at(&self, delta: i64, now: u64) -> (r: Option<u64>)
        requires
            self.wf(),
            now >= self.anchor.anchor_time,
            self.fits_at(now as int),
        ensures
            self.total == 0 ==> r is None,
            self.total > 0 ==> r == Some(
                clamp(position_at(*self, now as int) + delta, 0, self.total as int) as u64,
            ),
    {
        if self.total == 0 {
            None
        } else {
            let p = self.current_position(now);
            Some(seek_target(p, delta, self.total))
        }
    }

    /// Records the engine's answer to a seek to `target`: on success the
    /// anchor becomes `(target, now)`, on failure nothing changes.
    pub fn seek_result(&mut self, target: u64, succeeded: bool, now: u64)
        requires
            old(self).wf(),
            old(self).total > 0 ==> target <= old(self).total,
        ensures
            final(self).wf(),
            succeeded ==> *final(self) == (Tracker {
                state: old(self).state,
                anchor: PositionAnchor { frozen_offset: target, anchor_time: now },
                total: old(self).total,
            }),
            !succeeded ==> *final(self) == *old(self),
    {
        if succeeded {
            self.anchor = PositionAnchor { frozen_offset: target, anchor_time: now };
        }
    }
}

/// The seek target for a relative jump of `delta` milliseconds from `pos`,
/// clamped into `[0, total]`.
pub fn seek_target(pos: u64, delta: i64, total: u64) -> (r: u64)
    ensures
        r == clamp(pos + delta, 0, total as int),
{
    if delta < 0 {
        let back: u64 = if delta == i64::MIN {
            (i64::MAX as u64) + 1
        } else {
            (-delta) as u64
        };
        if back >= pos {
            0
        } else if pos - back > total {
            total
        } else {
            pos - back
        }
    } else {
        let fwd: u64 = delta as u64;
        if pos >= total || fwd >= total - pos {
            total
        } else {
            pos + fwd
        }
    }
}

/// A relative seek clamped into `[0, total]` lands inside that range, for
/// every start and every signed delta, whenever the total is known.
pub proof fn lemma_clamped_seek_in_range(d: nat, s: int, total: nat)
    requires
        total > 0,
    ensures
        0 <= clamp(d + s, 0, total as int) <= total,
{
}

/// While paused, the position does not depend on the wall clock.
pub proof fn lemma_pause_freezes(t: Tracker, before: int, after: int)
    requires
        t.state == PlaybackState::Paused,
    ensures
        position_at(t, after) == position_at(t, before),
{
}

/// While playing without seeking, the position never goes back as time
/// passes, never passes a known total, and reaches it once enough time has
/// elapsed.
pub proof fn lemma_playing_monotone(t: Tracker, earlier: int, later: int)
    requires
        t.wf(),
        t.state == PlaybackState::Playing,
        t.anchor.anchor_time <= earlier <= later,
    ensures
        position_at(t, earlier) <= position_at(t, later),
        t.total > 0 ==> position_at(t, later) <= t.total,
        t.total > 0 && later - t.anchor.anchor_time >= t.total - t.anchor.frozen_offset
            ==> position_at(t, later) == t.total,
{
}

/// Right after a successful seek the position is the clamped target,
/// whether the tracker was playing or paused.
pub proof fn lemma_seek_lands_on_target(t: Tracker, delta: int, now: u64)
    requires
        t.wf(),
        t.total > 0,
        t.anchor.anchor_time <= now,
    ensures
        ({
            let target = clamp(position_at(t, now as int) + delta, 0, t.total as int);
            let after = Tracker {
                state: t.state,
                anchor: PositionAnchor { frozen_offset: target as u64, anchor_time: now },
                total: t.total,
            };
            after.wf() && position_at(after, now as int) == target
        }),
{
}

} // verus!
