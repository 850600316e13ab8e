//! The table of timers, and what each operation does to it.

use vstd::prelude::*;
use vstd::hash_map::StringHashMap;
use crate::error::TicTocError;
use crate::instant::{Reading, Span};
use crate::timer::Timer;
use crate::units::TimeUnits;

verus! {

/// The key of the timer that is meant where no key is given.
pub const MARK: &'static str = "maxi_el_amor_de_mi_vida";

/// What a table holds: its timers, by key.
pub type Timers = Map<Seq<char>, Timer>;

/// The key that `mark` stands for.
pub open spec fn key_of(mark: Option<&str>) -> Seq<char> {
    match mark {
        Some(key) => key@,
        None => MARK@,
    }
}

/// Whether every timer of the table `m` is well formed.
pub open spec fn timers_wf(m: Timers) -> bool {
    forall|key: Seq<char>| m.contains_key(key) ==> (#[trigger] m[key]).wf()
}

/// The table after a `tic` on `key` at `now`: where the key was free it holds
/// a timer that starts at `now`, else nothing has changed.
pub open spec fn tic_state(m: Timers, key: Seq<char>, now: Reading) -> Timers {
    if m.contains_key(key) {
        m
    } else {
        m.insert(key, Timer::started(now))
    }
}

/// What a `tic` on `key` at `now` returns.
pub open spec fn tic_result(m: Timers, key: Seq<char>, now: Reading) -> Result<Reading, TicTocError> {
    if m.contains_key(key) {
        Err(TicTocError::TimerAlreadyExists)
    } else {
        Ok(now)
    }
}

/// The table after a `toc` on `key` at `now`: where the key holds a timer,
/// that timer is finished at `now`, else nothing has changed.
pub open spec fn toc_state(m: Timers, key: Seq<char>, now: Reading) -> Timers {
    if m.contains_key(key) {
        m.insert(key, m[key].finished(now))
    } else {
        m
    }
}

/// What a `toc` on `key` at `now` returns.
pub open spec fn toc_result(m: Timers, key: Seq<char>, now: Reading) -> Result<Reading, TicTocError> {
    if m.contains_key(key) {
        Ok(now)
    } else {
        Err(TicTocError::TimerNotExists)
    }
}

/// The elapsed time `elapsed` of a timer in whole `unit`s: an error while the
/// timer runs, and where the number does not fit an `i64`.
pub open spec fn report(elapsed: Option<Span>, unit: TimeUnits) -> Result<i64, TicTocError> {
    match elapsed {
        Some(span) => match span.spec_whole(unit) {
            Some(n) => Ok(n),
            None => Err(TicTocError::TimerResultError),
        },
        None => Err(TicTocError::TimerResultError),
    }
}

/// What `time` returns for `key` and `unit`.
pub open spec fn time_result(m: Timers, key: Seq<char>, unit: TimeUnits) -> Result<i64, TicTocError> {
    if m.contains_key(key) {
        report(m[key].elapsed, unit)
    } else {
        Err(TicTocError::TimerNotExists)
    }
}

/// What `local_time` returns for `key` and `unit`.
pub open spec fn local_time_result(m: Timers, key: Seq<char>, unit: TimeUnits) -> Result<
    i64,
    TicTocError,
> {
    if m.contains_key(key) {
        report(m[key].local_elapsed, unit)
    } else {
        Err(TicTocError::TimerNotExists)
    }
}

/// The elapsed time `elapsed` of a timer in whole `unit`s, in milliseconds
/// where no unit is given.
pub fn resolve(elapsed: Option<Span>, unit: Option<TimeUnits>) -> (r: Result<i64, TicTocError>)
    ensures
        r == report(elapsed, TimeUnits::spec_or_default(unit)),
{
    let unit = TimeUnits::or_default(unit);
    match elapsed {
        Some(span) => match span.whole(unit) {
            Some(n) => Ok(n),
            None => Err(TicTocError::TimerResultError),
        },
        None => Err(TicTocError::TimerResultError),
    }
}

/// A table of timers, each under its key.
pub struct TicToc {
    timers: StringHashMap<Timer>,
}

impl View for TicToc {
    type V = Timers;

    /// The timers of the table, by key.
    closed spec fn view(&self) -> Timers {
        self.timers@
    }
}

impl TicToc {
    /// Every timer of a table is well formed.
    #[verifier::type_invariant]
    pub open spec fn wf(&self) -> bool {
        timers_wf(self@)
    }

    /// An empty table.
    pub fn new() -> (r: Self)
        ensures
            r@ == Timers::empty(),
    {
        TicToc { timers: StringHashMap::new() }
    }

    /// A copy of the timer under `mark`.
    pub fn get_timer(&self, mark: Option<&str>) -> (r: Result<Timer, TicTocError>)
        ensures
            r is Ok <==> self@.contains_key(key_of(mark)),
            r matches Ok(timer) ==> timer == self@[key_of(mark)] && timer.wf(),
            r matches Err(e) ==> e == TicTocError::TimerNotExists,
    {
        proof {
            use_type_invariant(self);
        }
        let key = mark.unwrap_or(MARK);
        match self.timers.get(key) {
            Some(timer) => Ok(*timer),
            None => Err(TicTocError::TimerNotExists),
        }
    }

    /// Puts `timer` under `key`, in place of the timer that the key may hold.
    fn put(&mut self, key: &str, timer: Timer)
        requires
            timer.wf(),
        ensures
            final(self)@ == old(self)@.insert(key@, timer),
    {
        proof {
            use_type_invariant(&*self);
        }
        // The map is taken out of the table while it changes, so that the
        // table is well formed at every step.
        let mut timers = StringHashMap::new();
        std::mem::swap(&mut self.timers, &mut timers);
        timers.insert(key.to_owned(), timer);
        std::mem::swap(&mut self.timers, &mut timers);
    }

    /// Puts `timer` under `mark`, and fails where no timer was there to be
    /// replaced.
    fn update_timer(&mut self, mark: Option<&str>, timer: Timer) -> (r: Result<(), TicTocError>)
        requires
            timer.wf(),
        ensures
            final(self)@ == old(self)@.insert(key_of(mark), timer),
            r is Ok <==> old(self)@.contains_key(key_of(mark)),
            r matches Err(e) ==> e == TicTocError::TimerUpdateError,
    {
        let key = mark.unwrap_or(MARK);
        let replaced = self.timers.contains_key(key);
        self.put(key, timer);
        if replaced {
            Ok(())
        } else {
            Err(TicTocError::TimerUpdateError)
        }
    }

    /// Starts the timer under `mark` at `now`, and returns `now`. Fails with
    /// `TimerAlreadyExists` where the key holds a timer already, running or
    /// finished.
    pub fn tic_at(&mut self, mark: Option<&str>, now: Reading) -> (r: Result<Reading, TicTocError>)
        ensures
            r == tic_result(old(self)@, key_of(mark), now),
            final(self)@ == tic_state(old(self)@, key_of(mark), now),
    {
        let key = mark.unwrap_or(MARK);
        if self.timers.contains_key(key) {
            return Err(TicTocError::TimerAlreadyExists);
        }
        self.put(key, Timer::new(now));
        Ok(now)
    }

    /// Stops the timer under `mark` at `now`, and returns `now`. A timer that
    /// was stopped before is stopped anew. Fails with `TimerNotExists` where
    /// the key holds no timer, and never with `TimerUpdateError`.
    pub fn toc_at(&mut self, mark: Option<&str>, now: Reading) -> (r: Result<Reading, TicTocError>)
        ensures
            r == toc_result(old(self)@, key_of(mark), now),
            final(self)@ == toc_state(old(self)@, key_of(mark), now),
    {
        let timer = match self.get_timer(mark) {
            Ok(timer) => timer.finish(now),
            Err(e) => {
                return Err(e);
            },
        };
        match self.update_timer(mark, timer) {
            Ok(()) => Ok(now),
            Err(e) => Err(e),
        }
    }

    /// Starts the timer under `mark` at the current time, and returns what
    /// the clocks showed. Fails with `TimerAlreadyExists` where the key holds
    /// a timer already.
    pub fn tic(&mut self, mark: Option<&str>) -> (r: Result<Reading, TicTocError>)
        ensures
            r is Err <==> old(self)@.contains_key(key_of(mark)),
            r matches Err(e) ==> e == TicTocError::TimerAlreadyExists && final(self)@ == old(self)@,
            r matches Ok(now) ==> now.wf() && final(self)@ == tic_state(
                old(self)@,
                key_of(mark),
                now,
            ),
    {
        let now = Reading::now();
        self.tic_at(mark, now)
    }

    /// Stops the timer under `mark` at the current time, and returns what the
    /// clocks showed. Fails with `TimerNotExists` where the key holds no
    /// timer.
    pub fn toc(&mut self, mark: Option<&str>) -> (r: Result<Reading, TicTocError>)
        ensures
            r is Ok <==> old(self)@.contains_key(key_of(mark)),
            r matches Err(e) ==> e == TicTocError::TimerNotExists && final(self)@ == old(self)@,
            r matches Ok(now) ==> now.wf() && final(self)@ == toc_state(
                old(self)@,
                key_of(mark),
                now,
            ),
    {
        let now = Reading::now();
        self.toc_at(mark, now)
    }

    /// The time that the timer under `mark` measured in UTC, in whole `unit`s
    /// rounded toward zero; in milliseconds where no unit is given. Fails
    /// with `TimerNotExists` where the key holds no timer, and with
    /// `TimerResultError` where the timer still runs or the number does not
    /// fit an `i64`, which milliseconds and longer units always do.
    pub fn time(&self, mark: Option<&str>, unit: Option<TimeUnits>) -> (r: Result<i64, TicTocError>)
        ensures
            r == time_result(self@, key_of(mark), TimeUnits::spec_or_default(unit)),
            r is Ok ==> self@[key_of(mark)].is_finished(),
            self@.contains_key(key_of(mark)) && self@[key_of(mark)].is_finished()
                && TimeUnits::spec_or_default(unit).is_coarse() ==> r is Ok,
    {
        match self.get_timer(mark) {
            Ok(timer) => {
                proof {
                    timer.lemma_finished_has_elapsed();
                    if TimeUnits::spec_or_default(unit).is_coarse() {
                        timer.lemma_coarse_units_fit(TimeUnits::spec_or_default(unit));
                    }
                }
                resolve(timer.get_duration(), unit)
            },
            Err(e) => Err(e),
        }
    }

    /// The time that the timer under `mark` measured on the local wall clock;
    /// in everything else like [`TicToc::time`].
    pub fn local_time(&self, mark: Option<&str>, unit: Option<TimeUnits>) -> (r: Result<
        i64,
        TicTocError,
    >)
        ensures
            r == local_time_result(self@, key_of(mark), TimeUnits::spec_or_default(unit)),
            r is Ok ==> self@[key_of(mark)].is_finished(),
            self@.contains_key(key_of(mark)) && self@[key_of(mark)].is_finished()
                && TimeUnits::spec_or_default(unit).is_coarse() ==> r is Ok,
    {
        match self.get_timer(mark) {
            Ok(timer) => {
                proof {
                    timer.lemma_finished_has_elapsed();
                    if TimeUnits::spec_or_default(unit).is_coarse() {
                        timer.lemma_coarse_units_fit(TimeUnits::spec_or_default(unit));
                    }
                }
                resolve(timer.get_local_duration(), unit)
            },
            Err(e) => Err(e),
        }
    }
}

} // verus!
