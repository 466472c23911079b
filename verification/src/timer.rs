//! A clock for render loops that can be paused and resumed. It never reads
//! the time itself: every operation is told what time it is, in
//! milliseconds.

use crate::rational::Rational;
use vstd::prelude::*;

verus! {

/// The mathematical content of a [`Timer`].
pub struct TimerState {
    /// When the clock was started, shifted forward by every pause since.
    pub started: Option<real>,
    /// When the clock was paused, while it is.
    pub paused: Option<real>,
}

impl TimerState {
    /// The time elapsed at `now`: counted from the start up to `now`, or up
    /// to the pause while the clock is paused. A clock that was never
    /// started shows zero.
    pub open spec fn elapsed(self, now: real) -> real {
        match self.started {
            None => 0real,
            Some(started) => match self.paused {
                None => now - started,
                Some(paused) => paused - started,
            },
        }
    }

    /// The state after a pause at `now`: a clock already paused stays as it
    /// is.
    pub open spec fn paused_at(self, now: real) -> TimerState {
        match self.paused {
            Some(_) => self,
            None => TimerState { paused: Some(now), ..self },
        }
    }

    /// The state after a resume at `now`: the start moves forward by the
    /// length of the pause, so that the pause does not count. A clock that
    /// is not paused stays as it is.
    pub open spec fn resumed_at(self, now: real) -> TimerState {
        match self.paused {
            None => self,
            Some(paused) => TimerState {
                started: match self.started {
                    Some(started) => Some(started + (now - paused)),
                    None => None,
                },
                paused: None,
            },
        }
    }

    /// The state after a reset at `now`: the clock runs, from zero.
    pub open spec fn reset_at(now: real) -> TimerState {
        TimerState { started: Some(now), paused: None }
    }
}

/// A clock that can be paused and resumed.
pub struct Timer {
    started: Option<Rational>,
    paused: Option<Rational>,
}

/// The number that an optional rational denotes, if there is one.
pub open spec fn optional_value(r: Option<Rational>) -> Option<real> {
    match r {
        Some(q) => Some(q@),
        None => None,
    }
}

impl View for Timer {
    type V = TimerState;

    closed spec fn view(&self) -> TimerState {
        TimerState { started: optional_value(self.started), paused: optional_value(self.paused) }
    }
}

impl Timer {
    /// A clock that has not been started. It shows zero until it is reset.
    pub fn new() -> (timer: Timer)
        ensures
            timer@ == (TimerState { started: None, paused: None }),
    {
        Timer { started: None, paused: None }
    }

    /// Stops the clock at `now`, unless it is stopped already.
    pub fn pause(&mut self, now: &Rational)
        ensures
            final(self)@ == old(self)@.paused_at(now@),
    {
        if self.paused.is_none() {
            self.paused = Some(now.clone());
        }
    }

    /// Lets the clock run again from `now`, if it was stopped. The time
    /// spent stopped does not count.
    pub fn resume(&mut self, now: &Rational)
        ensures
            final(self)@ == old(self)@.resumed_at(now@),
    {
        let paused = match &self.paused {
            Some(paused) => paused.clone(),
            None => {
                return ;
            },
        };
        let started = match &self.started {
            Some(started) => Some(started.plus(&now.minus(&paused))),
            None => None,
        };
        self.started = started;
        self.paused = None;
    }

    /// Starts the clock anew at `now`: it runs, and shows zero at `now`.
    pub fn reset(&mut self, now: &Rational)
        ensures
            final(self)@ == TimerState::reset_at(now@),
    {
        self.started = Some(now.clone());
        self.paused = None;
    }

    /// The time elapsed at `now`.
    pub fn read(&self, now: &Rational) -> (elapsed: Rational)
        ensures
            elapsed@ == self@.elapsed(now@),
    {
        match &self.started {
            None => Rational::from_int(0),
            Some(started) => match &self.paused {
                None => now.minus(started),
                Some(paused) => paused.minus(started),
            },
        }
    }

    /// Called once per frame by a render loop. The clock needs no upkeep,
    /// so this changes nothing.
    pub fn update(&mut self, now: &Rational)
        ensures
            final(self)@ == old(self)@,
    {
    }
}

/// While the clock is paused it stands still.
pub proof fn lemma_paused_clock_stands_still(state: TimerState, earlier: real, later: real)
    requires
        state.paused is Some,
    ensures
        state.elapsed(earlier) == state.elapsed(later),
{
}

/// A pause does not count: a running clock that is paused and later resumed
/// shows, from then on, what it showed at the pause plus the time since the
/// resume.
pub proof fn lemma_pause_does_not_count(
    state: TimerState,
    pause: real,
    resume: real,
    now: real,
)
    requires
        state.paused is None,
    ensures
        state.paused_at(pause).resumed_at(resume).elapsed(now) == if state.started is Some {
            state.elapsed(pause) + (now - resume)
        } else {
            0real
        },
{
}

/// A clock reset at `now` runs and shows the time since.
pub proof fn lemma_reset_starts_from_zero(start: real, now: real)
    ensures
        TimerState::reset_at(start).elapsed(start) == 0real,
        TimerState::reset_at(start).elapsed(now) == now - start,
{
}

} // verus!
