//! What holds of the table whatever the keys, the readings and the order of
//! the calls are.

use vstd::prelude::*;
use vstd::arithmetic::div_mod::{
    lemma_div_denominator, lemma_fundamental_div_mod, lemma_mod_pos_bound,
};
use crate::error::TicTocError;
use crate::instant::{div_toward_zero, Reading, Span};
use crate::registry::{
    local_time_result, tic_result, tic_state, time_result, timers_wf, toc_result, toc_state,
    Timers,
};
use crate::timer::Timer;
use crate::units::TimeUnits;

verus! {

/// A timer that was started and not stopped since has no duration to report:
/// after a `tic` on a key, `time` and `local_time` on that key fail with
/// `TimerResultError`, in every unit. This holds too where the `tic` failed
/// on a running timer; a key that held a finished timer before the `tic`
/// still holds it, and is left out.
pub proof fn lemma_started_timer_has_no_result(
    m: Timers,
    key: Seq<char>,
    now: Reading,
    unit: TimeUnits,
)
    requires
        timers_wf(m),
        !(m.contains_key(key) && m[key].is_finished()),
    ensures
        time_result(tic_state(m, key, now), key, unit) == Err::<i64, TicTocError>(
            TicTocError::TimerResultError,
        ),
        local_time_result(tic_state(m, key, now), key, unit) == Err::<i64, TicTocError>(
            TicTocError::TimerResultError,
        ),
{
    if m.contains_key(key) {
        assert(m[key].wf());
    }
}

/// On a key that holds no timer, `toc`, `time` and `local_time` fail with
/// `TimerNotExists`, and `toc` leaves the table as it was.
pub proof fn lemma_unknown_key_fails(
    m: Timers,
    key: Seq<char>,
    now: Reading,
    unit: TimeUnits,
)
    requires
        !m.contains_key(key),
    ensures
        toc_result(m, key, now) == Err::<Reading, TicTocError>(TicTocError::TimerNotExists),
        toc_state(m, key, now) == m,
        time_result(m, key, unit) == Err::<i64, TicTocError>(TicTocError::TimerNotExists),
        local_time_result(m, key, unit) == Err::<i64, TicTocError>(TicTocError::TimerNotExists),
{
}

/// Only a `tic` on a key gives that key a timer: a key that holds none still
/// holds none after a `toc` on any key and after a `tic` on another key.
pub proof fn lemma_key_stays_unknown(
    m: Timers,
    key: Seq<char>,
    other: Seq<char>,
    now: Reading,
)
    requires
        !m.contains_key(key),
    ensures
        !toc_state(m, other, now).contains_key(key),
        other != key ==> !tic_state(m, other, now).contains_key(key),
{
}

/// A `tic` on a key that has just had one fails with `TimerAlreadyExists` and
/// changes nothing, whether the first succeeded or not.
pub proof fn lemma_second_tic_fails(
    m: Timers,
    key: Seq<char>,
    first: Reading,
    second: Reading,
)
    ensures
        tic_result(tic_state(m, key, first), key, second) == Err::<Reading, TicTocError>(
            TicTocError::TimerAlreadyExists,
        ),
        tic_state(tic_state(m, key, first), key, second) == tic_state(m, key, first),
{
}

/// A key goes from free to running to finished, and never back: a `tic` on
/// a free key leaves a running timer, a `toc` on a key with a timer leaves a
/// finished one, and neither call frees a key.
pub proof fn lemma_life_cycle(m: Timers, key: Seq<char>, other: Seq<char>, now: Reading)
    ensures
        !m.contains_key(key) ==> tic_state(m, key, now).contains_key(key) && !tic_state(
            m,
            key,
            now,
        )[key].is_finished(),
        m.contains_key(key) ==> toc_state(m, key, now).contains_key(key) && toc_state(
            m,
            key,
            now,
        )[key].is_finished(),
        m.contains_key(key) ==> tic_state(m, other, now).contains_key(key),
        m.contains_key(key) ==> toc_state(m, other, now).contains_key(key),
{
}

/// A timer started at `begin` on a free key and stopped at `end` reports the
/// time from `begin` to `end` on each clock, in whole units rounded toward
/// zero.
pub proof fn lemma_round_trip(
    m: Timers,
    key: Seq<char>,
    begin: Reading,
    end: Reading,
    unit: TimeUnits,
)
    requires
        !m.contains_key(key),
    ensures
        time_result(toc_state(tic_state(m, key, begin), key, end), key, unit) == match Span::whole_units(
            end.utc@ - begin.utc@,
            unit,
        ) {
            Some(n) => Ok::<i64, TicTocError>(n),
            None => Err(TicTocError::TimerResultError),
        },
        local_time_result(toc_state(tic_state(m, key, begin), key, end), key, unit) == match Span::whole_units(
            end.local@ - begin.local@,
            unit,
        ) {
            Some(n) => Ok::<i64, TicTocError>(n),
            None => Err(TicTocError::TimerResultError),
        },
{
    let started = tic_state(m, key, begin);
    assert(started[key] == Timer::started(begin));
    let stopped = toc_state(started, key, end);
    assert(stopped[key] == Timer::started(begin).finished(end));
    assert(Span::spec_between(begin.utc, end.utc)@ == end.utc@ - begin.utc@);
    assert(Span::spec_between(begin.local, end.local)@ == end.local@ - begin.local@);
}

/// A timer that ran for a millisecond or more of UTC reports a positive
/// number of milliseconds.
pub proof fn lemma_round_trip_is_positive(
    m: Timers,
    key: Seq<char>,
    begin: Reading,
    end: Reading,
)
    requires
        !m.contains_key(key),
        begin.wf(),
        end.wf(),
        end.utc@ - begin.utc@ >= 1_000_000,
    ensures
        time_result(
            toc_state(tic_state(m, key, begin), key, end),
            key,
            TimeUnits::MilliSeconds,
        ) matches Ok(n) && n > 0 && n == (end.utc@ - begin.utc@) / 1_000_000,
{
    lemma_round_trip(m, key, begin, end, TimeUnits::MilliSeconds);
}

/// A second `toc` on a key replaces what the first recorded: the timer ends
/// at the later reading, and keeps its start.
pub proof fn lemma_toc_again_replaces(
    m: Timers,
    key: Seq<char>,
    first: Reading,
    second: Reading,
)
    ensures
        toc_state(toc_state(m, key, first), key, second) == toc_state(m, key, second),
{
    if m.contains_key(key) {
        let once = toc_state(m, key, first);
        assert(once[key].finished(second) == m[key].finished(second));
        assert(toc_state(once, key, second) =~= toc_state(m, key, second));
    }
}

/// Keys do not interfere: a `tic` or a `toc` on one key changes neither the
/// timer of another key nor what `time` and `local_time` report for it.
pub proof fn lemma_keys_are_independent(
    m: Timers,
    key: Seq<char>,
    other: Seq<char>,
    now: Reading,
    unit: TimeUnits,
)
    requires
        key != other,
    ensures
        tic_state(m, key, now).contains_key(other) == m.contains_key(other),
        toc_state(m, key, now).contains_key(other) == m.contains_key(other),
        m.contains_key(other) ==> tic_state(m, key, now)[other] == m[other],
        m.contains_key(other) ==> toc_state(m, key, now)[other] == m[other],
        time_result(tic_state(m, key, now), other, unit) == time_result(m, other, unit),
        time_result(toc_state(m, key, now), other, unit) == time_result(m, other, unit),
        local_time_result(tic_state(m, key, now), other, unit) == local_time_result(m, other, unit),
        local_time_result(toc_state(m, key, now), other, unit) == local_time_result(m, other, unit),
{
}

/// A `tic` and a `toc` with readings in range keep every timer of the table
/// well formed.
pub proof fn lemma_steps_keep_timers_wf(m: Timers, key: Seq<char>, now: Reading)
    requires
        timers_wf(m),
        now.wf(),
    ensures
        timers_wf(tic_state(m, key, now)),
        timers_wf(toc_state(m, key, now)),
{
    assert(Timer::started(now).wf());
    if m.contains_key(key) {
        assert(m[key].wf());
        assert(m[key].finished(now).wf());
    }
    assert forall|k: Seq<char>| tic_state(m, key, now).contains_key(k) implies (#[trigger] tic_state(
        m,
        key,
        now,
    )[k]).wf() by {
        if k != key {
            assert(m[k].wf());
        }
    }
    assert forall|k: Seq<char>| toc_state(m, key, now).contains_key(k) implies (#[trigger] toc_state(
        m,
        key,
        now,
    )[k]).wf() by {
        if k != key {
            assert(m[k].wf());
        }
    }
}

/// Division toward zero by a positive `b`: the quotient has the sign of `a`,
/// `a` lies less than one `b` beyond `b` times the quotient, and negating
/// `a` negates the quotient.
pub proof fn lemma_div_toward_zero(a: int, b: int)
    requires
        b > 0,
    ensures
        ({
            let q = div_toward_zero(a, b);
            &&& a >= 0 ==> 0 <= q && q * b <= a < (q + 1) * b
            &&& a <= 0 ==> q <= 0 && (q - 1) * b < a <= q * b
            &&& div_toward_zero(-a, b) == -q
        }),
{
    let q = div_toward_zero(a, b);
    let m = if a >= 0 { a } else { -a };
    let p = m / b;
    lemma_fundamental_div_mod(m, b);
    lemma_mod_pos_bound(m, b);
    assert(0 <= p && p * b <= m < (p + 1) * b) by (nonlinear_arith)
        requires
            b > 0,
            m >= 0,
            m == b * p + (m % b),
            0 <= m % b < b,
    ;
    if a > 0 {
        assert(q == p);
    } else if a == 0 {
        assert(p == 0) by (nonlinear_arith)
            requires
                b > 0,
                0 <= p,
                p * b <= 0,
        ;
        assert(q * b == 0 && (q + 1) * b == b && (q - 1) * b == -b) by (nonlinear_arith)
            requires
                q == 0,
        ;
    } else {
        assert(q == -p);
        assert(q * b == -(p * b) && (q - 1) * b == -((p + 1) * b)) by (nonlinear_arith)
            requires
                q == -p,
        ;
    }
}

/// The number of whole units is rounded toward zero: it has the sign of the
/// span, the span lies less than one unit beyond it, and the opposite span
/// has the opposite number.
pub proof fn lemma_whole_units_round_toward_zero(nanos: int, unit: TimeUnits)
    ensures
        ({
            let q = div_toward_zero(nanos, unit.spec_nanos());
            &&& nanos >= 0 ==> 0 <= q && q * unit.spec_nanos() <= nanos < (q + 1) * unit.spec_nanos()
            &&& nanos <= 0 ==> q <= 0 && (q - 1) * unit.spec_nanos() < nanos <= q * unit.spec_nanos()
            &&& div_toward_zero(-nanos, unit.spec_nanos()) == -q
        }),
{
    lemma_div_toward_zero(nanos, unit.spec_nanos());
}

/// Rounding toward zero twice is rounding toward zero once: dividing by `a`
/// and then by `r` gives what dividing by `a * r` gives.
pub proof fn lemma_div_toward_zero_nested(x: int, a: int, r: int)
    requires
        a > 0,
        r > 0,
    ensures
        a * r > 0,
        div_toward_zero(div_toward_zero(x, a), r) == div_toward_zero(x, a * r),
{
    let m = if x >= 0 { x } else { -x };
    lemma_div_denominator(m, a, r);
    lemma_div_toward_zero(x, a);
    assert(a * r > 0) by (nonlinear_arith)
        requires
            a > 0,
            r > 0,
    ;
    if x < 0 && m / a == 0 {
        assert(0int / r == 0);
    }
}

/// The units agree with one another: the number of whole `coarse` units in a
/// span is the number of its whole `fine` units, divided by the number of
/// `fine` units in a `coarse` one and rounded toward zero.
pub proof fn lemma_units_agree(nanos: int, fine: TimeUnits, coarse: TimeUnits)
    requires
        fine.spec_nanos() <= coarse.spec_nanos(),
    ensures
        coarse.spec_nanos() % fine.spec_nanos() == 0,
        div_toward_zero(nanos, coarse.spec_nanos()) == div_toward_zero(
            div_toward_zero(nanos, fine.spec_nanos()),
            coarse.spec_nanos() / fine.spec_nanos(),
        ),
{
    let a = fine.spec_nanos();
    let c = coarse.spec_nanos();
    let r = c / a;
    assert(c % a == 0 && r > 0 && c == a * r) by {
        match fine {
            TimeUnits::NanoSeconds => assert(c % 1 == 0 && c / 1 > 0 && c == 1 * (c / 1)),
            TimeUnits::MicroSeconds => assert(c % 1_000 == 0 && c / 1_000 > 0 && c == 1_000 * (c / 1_000)),
            TimeUnits::MilliSeconds => assert(c % 1_000_000 == 0 && c / 1_000_000 > 0 && c == 1_000_000 * (c / 1_000_000)),
            TimeUnits::Seconds => assert(c % 1_000_000_000 == 0 && c / 1_000_000_000 > 0 && c == 1_000_000_000 * (c / 1_000_000_000)),
            TimeUnits::Minutes => assert(c % 60_000_000_000 == 0 && c / 60_000_000_000 > 0 && c == 60_000_000_000 * (c / 60_000_000_000)),
            TimeUnits::Hours => assert(c % 3_600_000_000_000 == 0 && c / 3_600_000_000_000 > 0 && c == 3_600_000_000_000 * (c / 3_600_000_000_000)),
            TimeUnits::Days => assert(c % 86_400_000_000_000 == 0 && c / 86_400_000_000_000 > 0 && c == 86_400_000_000_000 * (c / 86_400_000_000_000)),
            TimeUnits::Weeks => assert(c % 604_800_000_000_000 == 0 && c / 604_800_000_000_000 > 0 && c == 604_800_000_000_000 * (c / 604_800_000_000_000)),
        }
    }
    lemma_div_toward_zero_nested(nanos, a, r);
}

/// A finished timer always has a duration in milliseconds and in every
/// longer unit: only nanoseconds and microseconds can exceed an `i64`.
pub proof fn lemma_coarse_units_always_resolve(m: Timers, key: Seq<char>, unit: TimeUnits)
    requires
        timers_wf(m),
        m.contains_key(key),
        m[key].is_finished(),
        unit.is_coarse(),
    ensures
        time_result(m, key, unit) is Ok,
        local_time_result(m, key, unit) is Ok,
{
    m[key].lemma_coarse_units_fit(unit);
}

/// For a finished timer the seconds are the milliseconds divided by 1000 and
/// rounded toward zero, so that a thousand times the seconds differ from the
/// milliseconds by less than a thousand, and never lie beyond them.
pub proof fn lemma_seconds_agree_with_milliseconds(m: Timers, key: Seq<char>)
    requires
        timers_wf(m),
        m.contains_key(key),
        m[key].is_finished(),
    ensures
        ({
            &&& time_result(m, key, TimeUnits::Seconds) matches Ok(s)
            &&& time_result(m, key, TimeUnits::MilliSeconds) matches Ok(ms)
            &&& s == div_toward_zero(ms as int, 1000)
            &&& -1000 < ms - 1000 * s < 1000
            &&& ms >= 0 ==> 1000 * s <= ms
            &&& ms <= 0 ==> ms <= 1000 * s
        }),
        ({
            &&& local_time_result(m, key, TimeUnits::Seconds) matches Ok(s)
            &&& local_time_result(m, key, TimeUnits::MilliSeconds) matches Ok(ms)
            &&& s == div_toward_zero(ms as int, 1000)
            &&& -1000 < ms - 1000 * s < 1000
            &&& ms >= 0 ==> 1000 * s <= ms
            &&& ms <= 0 ==> ms <= 1000 * s
        }),
{
    let timer = m[key];
    timer.lemma_finished_has_elapsed();
    timer.lemma_coarse_units_fit(TimeUnits::Seconds);
    timer.lemma_coarse_units_fit(TimeUnits::MilliSeconds);
    lemma_units_agree(timer.elapsed->0@, TimeUnits::MilliSeconds, TimeUnits::Seconds);
    lemma_units_agree(timer.local_elapsed->0@, TimeUnits::MilliSeconds, TimeUnits::Seconds);
}

} // verus!
