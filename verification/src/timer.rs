//! One measurement: when it began, when it ended, and how long it took.

use vstd::prelude::*;
use crate::instant::{Reading, Span, Timestamp};
use crate::units::TimeUnits;

verus! {

/// One measurement on both clocks. It is running until it is finished; from
/// then on it holds, for each clock, the end and the time that passed.
#[derive(Debug, Clone, Copy, PartialEq, Eq)]
pub struct Timer {
    /// When the measurement began, in UTC.
    pub start: Timestamp,
    /// When it ended, in UTC; `None` while it runs.
    pub end: Option<Timestamp>,
    /// The time from `start` to `end`; `None` while it runs.
    pub elapsed: Option<Span>,
    /// When the measurement began, on the local wall clock.
    pub local_start: Timestamp,
    /// When it ended, on the local wall clock; `None` while it runs.
    pub local_end: Option<Timestamp>,
    /// The time from `local_start` to `local_end`; `None` while it runs.
    pub local_elapsed: Option<Span>,
}

impl Timer {
    /// What holds of the three values that one clock contributes: the end
    /// and the elapsed time are set together, and the elapsed time is the
    /// time from the start to the end.
    pub open spec fn clock_wf(start: Timestamp, end: Option<Timestamp>, elapsed: Option<Span>) -> bool {
        &&& start.wf()
        &&& match end {
            Some(e) => e.wf() && elapsed == Some(Span::spec_between(start, e)),
            None => elapsed is None,
        }
    }

    /// What holds of every timer in a table: each clock's values fit
    /// together, and both clocks were stopped or neither was.
    pub open spec fn wf(self) -> bool {
        &&& Timer::clock_wf(self.start, self.end, self.elapsed)
        &&& Timer::clock_wf(self.local_start, self.local_end, self.local_elapsed)
        &&& self.end is Some <==> self.local_end is Some
    }

    /// Whether the measurement has ended.
    pub open spec fn is_finished(self) -> bool {
        self.end is Some
    }

    /// The timer that starts at `now`.
    pub open spec fn started(now: Reading) -> Timer {
        Timer {
            start: now.utc,
            end: None,
            elapsed: None,
            local_start: now.local,
            local_end: None,
            local_elapsed: None,
        }
    }

    /// This timer, finished at `now`. An end that it had before is replaced.
    pub open spec fn finished(self, now: Reading) -> Timer {
        Timer {
            start: self.start,
            end: Some(now.utc),
            elapsed: Some(Span::spec_between(self.start, now.utc)),
            local_start: self.local_start,
            local_end: Some(now.local),
            local_elapsed: Some(Span::spec_between(self.local_start, now.local)),
        }
    }

    /// What the clocks showed when the measurement began.
    pub open spec fn spec_start_reading(self) -> Reading {
        Reading { utc: self.start, local: self.local_start }
    }

    /// What a well-formed timer has measured fits an `i64` in milliseconds
    /// and in every longer unit: the timestamps lie too close to one another
    /// for more.
    pub proof fn lemma_coarse_units_fit(self, unit: TimeUnits)
        requires
            self.wf(),
            unit.is_coarse(),
        ensures
            self.elapsed matches Some(span) ==> span.spec_whole(unit) is Some,
            self.local_elapsed matches Some(span) ==> span.spec_whole(unit) is Some,
    {
    }

    /// A well-formed timer holds an elapsed time, on either clock, exactly
    /// when it is finished.
    pub proof fn lemma_finished_has_elapsed(self)
        requires
            self.wf(),
        ensures
            self.is_finished() <==> self.elapsed is Some,
            self.is_finished() <==> self.local_elapsed is Some,
    {
    }

    /// A running timer that starts at `now`.
    pub fn new(now: Reading) -> (t: Timer)
        ensures
            t == Timer::started(now),
            t.wf(),
            !t.is_finished(),
    {
        proof {
            use_type_invariant(&now.utc);
            use_type_invariant(&now.local);
        }
        Timer {
            start: now.utc,
            end: None,
            elapsed: None,
            local_start: now.local,
            local_end: None,
            local_elapsed: None,
        }
    }

    /// This timer, finished at `now`: on each clock the end is `now` and the
    /// elapsed time is the time from the start to `now`. A timer that was
    /// finished before is finished anew.
    pub fn finish(self, now: Reading) -> (t: Timer)
        ensures
            t == self.finished(now),
            t.wf(),
            t.is_finished(),
    {
        proof {
            use_type_invariant(&self.start);
            use_type_invariant(&self.local_start);
            use_type_invariant(&now.utc);
            use_type_invariant(&now.local);
        }
        Timer {
            start: self.start,
            end: Some(now.utc),
            elapsed: Some(Span::between(&self.start, &now.utc)),
            local_start: self.local_start,
            local_end: Some(now.local),
            local_elapsed: Some(Span::between(&self.local_start, &now.local)),
        }
    }

    /// What the clocks showed when the measurement began.
    pub fn start_reading(&self) -> (r: Reading)
        ensures
            r == self.spec_start_reading(),
    {
        Reading { utc: self.start, local: self.local_start }
    }

    /// The time measured in UTC, or `None` while the timer runs.
    pub fn get_duration(&self) -> (d: Option<Span>)
        ensures
            d == self.elapsed,
    {
        self.elapsed
    }

    /// The time measured on the local wall clock, or `None` while the timer
    /// runs.
    pub fn get_local_duration(&self) -> (d: Option<Span>)
        ensures
            d == self.local_elapsed,
    {
        self.local_elapsed
    }
}

} // verus!
