//! The countdown state machine: one record holding the timer's
//! running/paused flags, its remaining and configured seconds, and the
//! instant of the last reconciliation while it is actively counting down.

use vstd::prelude::*;

verus! {

/// Seconds in the freshly created countdown: twenty-five minutes.
pub const DEFAULT_TOTAL_SECONDS: u64 = 1500;

/// The timer record. `start_time` holds the monotonic instant (in whole
/// seconds) from which elapsed time is measured; it is `Some` exactly while
/// the timer is actively counting down (`is_running && !is_paused`).
#[derive(Clone, Copy, Debug, PartialEq, Eq)]
pub struct PomodoroState {
    pub is_running: bool,
    pub is_paused: bool,
    pub remaining_seconds: u64,
    pub total_seconds: u64,
    pub start_time: Option<u64>,
}

impl PomodoroState {
    /// The record's invariant: remaining time never exceeds the configured
    /// total, and a start instant is recorded exactly while actively
    /// counting down.
    pub open spec fn inv(self) -> bool {
        &&& self.remaining_seconds <= self.total_seconds
        &&& self.start_time is Some <==> self.is_running && !self.is_paused
    }

    /// Started, not paused, and carrying a start instant: elapsed time is
    /// being accounted against this record.
    pub open spec fn counting_down(self) -> bool {
        self.is_running && !self.is_paused && self.start_time is Some
    }
}

/// Whole seconds from `start` to `now`; zero when `now` is earlier (a
/// monotonic clock never runs backwards, but the machine stays total).
pub open spec fn spec_elapsed(start: u64, now: u64) -> u64 {
    if now >= start {
        (now - start) as u64
    } else {
        0
    }
}

/// A timer actively counting down at `now` has used up all its remaining
/// seconds: the next reconciliation or poller tick takes the expiry
/// transition.
pub open spec fn spec_expired(s: PomodoroState, now: u64) -> bool {
    s.counting_down() && match s.start_time {
        Some(start) => spec_elapsed(start, now) >= s.remaining_seconds,
        None => false,
    }
}

/// The stored record after a query reconciles it at `now`. An actively
/// counting timer either expires (remaining drops to zero and the record
/// goes idle) or is re-based: the elapsed seconds are subtracted once and
/// `start_time` advances to `now`, so no later reconciliation can subtract
/// the same interval again. Idle or paused records are left alone.
pub open spec fn spec_reconcile(s: PomodoroState, now: u64) -> PomodoroState {
    if s.counting_down() {
        match s.start_time {
            Some(start) => {
                let e = spec_elapsed(start, now);
                if e >= s.remaining_seconds {
                    PomodoroState {
                        remaining_seconds: 0,
                        is_running: false,
                        start_time: None,
                        ..s
                    }
                } else {
                    PomodoroState {
                        remaining_seconds: (s.remaining_seconds - e) as u64,
                        start_time: Some(now),
                        ..s
                    }
                }
            },
            None => s,
        }
    } else {
        s
    }
}

/// The snapshot a query returns: the reconciled record, except that a
/// non-expiring reconciliation reports the start instant it read, while the
/// re-based instant lives only in the stored record.
pub open spec fn spec_snapshot(s: PomodoroState, now: u64) -> PomodoroState {
    if spec_expired(s, now) {
        spec_reconcile(s, now)
    } else {
        PomodoroState { start_time: s.start_time, ..spec_reconcile(s, now) }
    }
}

/// The record after a Start command at `now`: an idle timer begins counting
/// down, a paused one resumes, and one already actively counting is left
/// exactly as it is.
pub open spec fn spec_start(s: PomodoroState, now: u64) -> PomodoroState {
    if !s.is_running {
        PomodoroState { is_running: true, is_paused: false, start_time: Some(now), ..s }
    } else if s.is_paused {
        PomodoroState { is_paused: false, start_time: Some(now), ..s }
    } else {
        s
    }
}

/// The record after a Pause command at `now`: an actively counting timer
/// has its elapsed seconds folded into `remaining_seconds` (clamped at
/// zero), freezes, and drops its start instant. Otherwise a no-op.
pub open spec fn spec_pause(s: PomodoroState, now: u64) -> PomodoroState {
    if s.is_running && !s.is_paused {
        let rem = match s.start_time {
            Some(start) => {
                let e = spec_elapsed(start, now);
                if e >= s.remaining_seconds {
                    0u64
                } else {
                    (s.remaining_seconds - e) as u64
                }
            },
            None => s.remaining_seconds,
        };
        PomodoroState { is_paused: true, remaining_seconds: rem, start_time: None, ..s }
    } else {
        s
    }
}

/// The record after a Reset command: idle, unpaused, remaining time
/// restored to the configured total, no start instant. Unconditional.
pub open spec fn spec_reset(s: PomodoroState) -> PomodoroState {
    PomodoroState {
        is_running: false,
        is_paused: false,
        remaining_seconds: s.total_seconds,
        start_time: None,
        ..s
    }
}

/// The record after a SetDuration command: while the timer is fully idle
/// both the total and the remaining seconds become `seconds`; while it is
/// running — paused or not — the command is silently ignored.
pub open spec fn spec_set_time(s: PomodoroState, seconds: u64) -> PomodoroState {
    if !s.is_running {
        PomodoroState { total_seconds: seconds, remaining_seconds: seconds, ..s }
    } else {
        s
    }
}

/// The stored record after a poller tick at `now`: the tick takes the
/// expiry transition when it is due and otherwise leaves the record alone
/// (in particular it never re-bases `start_time`).
pub open spec fn spec_poll(s: PomodoroState, now: u64) -> PomodoroState {
    if spec_expired(s, now) {
        spec_reconcile(s, now)
    } else {
        s
    }
}

impl Default for PomodoroState {
    /// The record as created at process start: twenty-five minutes, idle.
    fn default() -> (s: Self)
        ensures
            s == (PomodoroState {
                is_running: false,
                is_paused: false,
                remaining_seconds: DEFAULT_TOTAL_SECONDS,
                total_seconds: DEFAULT_TOTAL_SECONDS,
                start_time: None,
            }),
            s.inv(),
    {
        PomodoroState {
            is_running: false,
            is_paused: false,
            remaining_seconds: DEFAULT_TOTAL_SECONDS,
            total_seconds: DEFAULT_TOTAL_SECONDS,
            start_time: None,
        }
    }
}

impl PomodoroState {
    /// Query with read-reconcile: returns a point-in-time snapshot and
    /// writes the reconciliation (expiry, or elapsed time consumed and
    /// `start_time` re-based to `now`) back into the stored record.
    pub fn get_state(&mut self, now: u64) -> (snapshot: PomodoroState)
        ensures
            *final(self) == spec_reconcile(*old(self), now),
            snapshot == spec_snapshot(*old(self), now),
            old(self).inv() ==> final(self).inv() && snapshot.inv(),
    {
        let mut current = *self;
        if current.is_running && !current.is_paused {
            if let Some(start) = current.start_time {
                let elapsed: u64 = if now >= start {
                    now - start
                } else {
                    0
                };
                if elapsed >= current.remaining_seconds {
                    current.remaining_seconds = 0;
                    current.is_running = false;
                    current.start_time = None;
                    self.remaining_seconds = 0;
                    self.is_running = false;
                    self.start_time = None;
                } else {
                    current.remaining_seconds = current.remaining_seconds - elapsed;
                    self.start_time = Some(now);
                    self.remaining_seconds = current.remaining_seconds;
                }
            }
        }
        current
    }

    /// Start command: begin counting down from idle, or resume from pause;
    /// a second Start on an actively counting timer is a no-op.
    pub fn start_timer(&mut self, now: u64)
        ensures
            *final(self) == spec_start(*old(self), now),
            old(self).inv() ==> final(self).inv(),
    {
        if !self.is_running {
            self.is_running = true;
            self.is_paused = false;
            self.start_time = Some(now);
        } else if self.is_paused {
            self.is_paused = false;
            self.start_time = Some(now);
        }
    }

    /// Pause command: freeze an actively counting timer, folding the
    /// elapsed seconds into `remaining_seconds` first; otherwise a no-op.
    pub fn pause_timer(&mut self, now: u64)
        ensures
            *final(self) == spec_pause(*old(self), now),
            old(self).inv() ==> final(self).inv(),
    {
        if self.is_running && !self.is_paused {
            if let Some(start) = self.start_time {
                let elapsed: u64 = if now >= start {
                    now - start
                } else {
                    0
                };
                if elapsed >= self.remaining_seconds {
                    self.remaining_seconds = 0;
                } else {
                    self.remaining_seconds = self.remaining_seconds - elapsed;
                }
            }
            self.is_paused = true;
            self.start_time = None;
        }
    }

    /// Reset command: back to idle with the full configured duration.
    pub fn reset_timer(&mut self)
        ensures
            *final(self) == spec_reset(*old(self)),
            final(self).remaining_seconds == final(self).total_seconds,
            final(self).inv(),
    {
        self.is_running = false;
        self.is_paused = false;
        self.remaining_seconds = self.total_seconds;
        self.start_time = None;
    }

    /// SetDuration command: reconfigure both the total and the remaining
    /// seconds, but only while the timer is fully idle.
    pub fn set_time(&mut self, seconds: u64)
        ensures
            *final(self) == spec_set_time(*old(self), seconds),
            old(self).is_running ==> *final(self) == *old(self),
            old(self).inv() ==> final(self).inv(),
    {
        if !self.is_running {
            self.total_seconds = seconds;
            self.remaining_seconds = seconds;
        }
    }

    /// One poller tick at `now`: takes the expiry transition when the
    /// countdown has run out and reports whether it did, so that the caller
    /// emits the expiry notification exactly once per transition.
    pub fn poll_tick(&mut self, now: u64) -> (expired_now: bool)
        ensures
            *final(self) == spec_poll(*old(self), now),
            expired_now == spec_expired(*old(self), now),
            old(self).inv() ==> final(self).inv(),
    {
        if self.is_running && !self.is_paused {
            if let Some(start) = self.start_time {
                let elapsed: u64 = if now >= start {
                    now - start
                } else {
                    0
                };
                if elapsed >= self.remaining_seconds {
                    self.remaining_seconds = 0;
                    self.is_running = false;
                    self.start_time = None;
                    return true;
                }
            }
        }
        false
    }
}

} // verus!
