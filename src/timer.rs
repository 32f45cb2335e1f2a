use vstd::prelude::*;

verus! {

/// Whether a timer stops once it has run its course or starts over.
#[derive(Clone, Copy, Debug, PartialEq, Eq, Structural)]
pub enum TimerMode {
    Once,
    Repeating,
}

/// A countdown timer measured in nanoseconds.
///
/// A paused timer ignores elapsed time altogether; this is distinct from a
/// running timer that is fed a scaled-down delta (slow motion).
#[derive(Clone, Copy, Debug, PartialEq, Eq, Structural)]
pub struct Timer {
    pub duration: u64,
    pub elapsed: u64,
    pub mode: TimerMode,
    pub paused: bool,
    pub finished: bool,
    /// How many times the timer completed during the most recent tick.
    pub times_finished_this_tick: u64,
}

impl Timer {
    pub open spec fn wf(self) -> bool {
        &&& self.elapsed <= self.duration
        &&& (self.mode == TimerMode::Repeating ==> self.duration > 0)
    }

    /// The state of the timer after `delta` nanoseconds have been fed to it.
    pub open spec fn ticked(self, delta: u64) -> Timer {
        if self.paused {
            Timer {
                times_finished_this_tick: 0,
                finished: if self.mode == TimerMode::Repeating { false } else { self.finished },
                ..self
            }
        } else if self.mode == TimerMode::Once && self.finished {
            Timer { times_finished_this_tick: 0, ..self }
        } else {
            let total = if self.elapsed + delta > u64::MAX {
                u64::MAX as int
            } else {
                self.elapsed + delta
            };
            if total < self.duration {
                Timer { elapsed: total as u64, finished: false, times_finished_this_tick: 0, ..self }
            } else if self.mode == TimerMode::Once {
                Timer {
                    elapsed: self.duration,
                    finished: true,
                    times_finished_this_tick: 1,
                    ..self
                }
            } else {
                Timer {
                    elapsed: (total % (self.duration as int)) as u64,
                    finished: true,
                    times_finished_this_tick: (total / (self.duration as int)) as u64,
                    ..self
                }
            }
        }
    }

    /// The timer with a new duration; the elapsed time is cut down to it.
    pub open spec fn with_duration(self, duration: u64) -> Timer {
        Timer { duration, elapsed: if self.elapsed <= duration { self.elapsed } else { duration }, ..self }
    }

    /// The timer started over: nothing elapsed, not finished.
    pub open spec fn restarted(self) -> Timer {
        Timer { elapsed: 0, finished: false, times_finished_this_tick: 0, ..self }
    }

    /// A running timer of the given duration with nothing elapsed.
    pub open spec fn fresh(duration: u64, mode: TimerMode) -> Timer {
        Timer {
            duration,
            elapsed: 0,
            mode,
            paused: false,
            finished: false,
            times_finished_this_tick: 0,
        }
    }

    /// A running timer with nothing elapsed.
    pub fn new(duration: u64, mode: TimerMode) -> (t: Timer)
        requires
            mode == TimerMode::Repeating ==> duration > 0,
        ensures
            t == Timer::fresh(duration, mode),
            t.wf(),
    {
        Timer {
            duration,
            elapsed: 0,
            mode,
            paused: false,
            finished: false,
            times_finished_this_tick: 0,
        }
    }

    /// Feeds `delta` nanoseconds of elapsed time to the timer.
    pub fn tick(&mut self, delta: u64)
        requires
            old(self).wf(),
        ensures
            *final(self) == old(self).ticked(delta),
            final(self).wf(),
    {
        if self.paused {
            self.times_finished_this_tick = 0;
            if self.mode == TimerMode::Repeating {
                self.finished = false;
            }
            return;
        }
        if self.mode == TimerMode::Once && self.finished {
            self.times_finished_this_tick = 0;
            return;
        }
        let total = self.elapsed.saturating_add(delta);
        if total < self.duration {
            self.elapsed = total;
            self.finished = false;
            self.times_finished_this_tick = 0;
        } else if self.mode == TimerMode::Once {
            self.elapsed = self.duration;
            self.finished = true;
            self.times_finished_this_tick = 1;
        } else {
            self.elapsed = total % self.duration;
            self.finished = true;
            self.times_finished_this_tick = total / self.duration;
        }
    }

    /// True when the timer has run its course.
    pub fn finished(&self) -> (r: bool)
        ensures
            r == self.finished,
    {
        self.finished
    }

    /// True when the timer completed at least once during the last tick.
    pub fn just_finished(&self) -> (r: bool)
        ensures
            r == (self.times_finished_this_tick > 0),
    {
        self.times_finished_this_tick > 0
    }

    /// Starts the timer over, keeping its duration, mode and paused state.
    pub fn reset(&mut self)
        ensures
            *final(self) == old(self).restarted(),
    {
        self.elapsed = 0;
        self.finished = false;
        self.times_finished_this_tick = 0;
    }

    pub fn pause(&mut self)
        ensures
            *final(self) == (Timer { paused: true, ..*old(self) }),
    {
        self.paused = true;
    }

    pub fn unpause(&mut self)
        ensures
            *final(self) == (Timer { paused: false, ..*old(self) }),
    {
        self.paused = false;
    }

    /// Changes the duration; the elapsed time is cut down to the new duration
    /// so that it never exceeds it.
    pub fn set_duration(&mut self, duration: u64)
        requires
            old(self).mode == TimerMode::Repeating ==> duration > 0,
        ensures
            *final(self) == old(self).with_duration(duration),
            final(self).wf(),
    {
        self.duration = duration;
        if self.elapsed > duration {
            self.elapsed = duration;
        }
    }

    /// Marks the whole duration as elapsed, so that the timer reads as
    /// finished until it is reset.
    pub fn finish(&mut self)
        ensures
            *final(self) == (Timer { elapsed: old(self).duration, finished: true, ..*old(self) }),
    {
        self.elapsed = self.duration;
        self.finished = true;
    }
}

/// Nine tenths of a duration, rounded down.
pub open spec fn nine_tenths(d: u64) -> u64 {
    (d as int * 9 / 10) as u64
}

/// Shortens a duration by ten percent (rounded down), never below one
/// nanosecond.
pub fn shortened_duration(d: u64) -> (r: u64)
    requires
        d > 0,
    ensures
        r == if nine_tenths(d) == 0 { 1 } else { nine_tenths(d) },
        0 < r <= d,
{
    let r = d / 10 * 9 + (d % 10) * 9 / 10;
    assert(r == nine_tenths(d)) by (nonlinear_arith)
        requires r == d / 10 * 9 + (d % 10) * 9 / 10, d > 0;
    if r == 0 { 1 } else { r }
}

} // verus!
