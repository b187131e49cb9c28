use vstd::prelude::*;

verus! {

/// Largest duration (in microseconds) a timer holds, and largest tick it takes.
pub const MAX_DURATION: u64 = 0x4000_0000_0000_0000;

#[derive(Clone, Copy, Debug, PartialEq, Eq, Structural)]
pub enum TimerMode {
    /// Runs to its duration once, then stays finished until reset.
    Once,
    /// Starts over each time its duration elapses.
    Repeating,
}

/// A countdown measured in microseconds.
#[derive(Clone, Copy, Debug, PartialEq, Eq, Structural)]
pub struct Timer {
    pub elapsed: u64,
    pub duration: u64,
    pub mode: TimerMode,
    /// The duration has been reached (for a one-shot timer, and not reset since).
    pub finished: bool,
    /// The duration was reached during the latest tick.
    pub just_finished: bool,
}

impl Timer {
    pub open spec fn wf(self) -> bool {
        &&& self.duration <= MAX_DURATION
        &&& self.elapsed <= self.duration
        &&& self.mode == TimerMode::Repeating ==> 0 < self.duration
        &&& self.mode == TimerMode::Repeating && 0 < self.duration ==> self.elapsed < self.duration
        &&& self.mode == TimerMode::Once && self.finished ==> self.elapsed == self.duration
        &&& self.just_finished ==> self.finished
    }

    /// The timer after `dt` more microseconds have passed.
    pub open spec fn ticked(self, dt: nat) -> Timer {
        if self.mode == TimerMode::Once && self.finished {
            Timer { just_finished: false, ..self }
        } else if self.elapsed + dt < self.duration {
            Timer { elapsed: (self.elapsed + dt) as u64, finished: false, just_finished: false, ..self }
        } else if self.mode == TimerMode::Once {
            Timer { elapsed: self.duration, finished: true, just_finished: true, ..self }
        } else {
            Timer {
                elapsed: ((self.elapsed + dt) % (self.duration as int)) as u64,
                finished: true,
                just_finished: true,
                ..self
            }
        }
    }

    pub open spec fn new_spec(duration: u64, mode: TimerMode) -> Timer {
        Timer { elapsed: 0, duration, mode, finished: false, just_finished: false }
    }

    /// A fresh timer of the given duration and mode, with nothing elapsed.
    pub fn new(duration: u64, mode: TimerMode) -> (t: Timer)
        requires
            duration <= MAX_DURATION,
            mode == TimerMode::Repeating ==> 0 < duration,
        ensures
            t.wf(),
            t == Timer::new_spec(duration, mode),
    {
        Timer { elapsed: 0, duration, mode, finished: false, just_finished: false }
    }

    /// Advances the timer by `dt` microseconds.
    pub fn tick(&mut self, dt: u64)
        requires
            old(self).wf(),
            dt <= MAX_DURATION,
        ensures
            final(self).wf(),
            *final(self) == old(self).ticked(dt as nat),
    {
        if self.mode == TimerMode::Once && self.finished {
            self.just_finished = false;
            return;
        }
        let e = self.elapsed + dt;
        if e < self.duration {
            self.elapsed = e;
            self.finished = false;
            self.just_finished = false;
        } else if self.mode == TimerMode::Once {
            self.elapsed = self.duration;
            self.finished = true;
            self.just_finished = true;
        } else {
            self.elapsed = e % self.duration;
            self.finished = true;
            self.just_finished = true;
        }
    }

    /// Starts the timer over: nothing elapsed, not finished.
    pub fn reset(&mut self)
        requires
            old(self).wf(),
        ensures
            final(self).wf(),
            *final(self) == (Timer { elapsed: 0, finished: false, just_finished: false, ..*old(self) }),
    {
        self.elapsed = 0;
        self.finished = false;
        self.just_finished = false;
    }

    /// Starts the timer over with a new duration.
    pub fn reset_to(&mut self, duration: u64)
        requires
            old(self).wf(),
            duration <= MAX_DURATION,
            old(self).mode == TimerMode::Repeating ==> 0 < duration,
        ensures
            final(self).wf(),
            *final(self) == (Timer { elapsed: 0, duration, finished: false, just_finished: false, ..*old(self) }),
    {
        self.duration = duration;
        self.elapsed = 0;
        self.finished = false;
        self.just_finished = false;
    }

    /// Whether the duration was reached during the latest tick.
    pub fn just_finished(&self) -> (r: bool)
        ensures
            r == self.just_finished,
    {
        self.just_finished
    }
}

} // verus!
