//! The table on the clocks of the host.

use chrono::{DateTime, Local, NaiveDateTime, Utc};
use std::time::{Duration, Instant};
use tictoc::{Reading, TicToc, TicTocError, TimeUnits};

/// Keeps the thread busy for `millis` milliseconds.
fn wait(millis: u64) {
    let begin = Instant::now();
    while begin.elapsed() < Duration::from_millis(millis) {
        std::hint::spin_loop();
    }
}

/// The UTC timestamp of a reading, as `chrono` holds it.
fn utc_of(reading: &Reading) -> DateTime<Utc> {
    DateTime::from_timestamp(reading.utc.secs(), reading.utc.subsec_nanos()).unwrap()
}

/// The local wall-clock time of a reading, as `chrono` holds it.
fn local_of(reading: &Reading) -> NaiveDateTime {
    DateTime::from_timestamp(reading.local.secs(), reading.local.subsec_nanos())
        .unwrap()
        .naive_utc()
}

#[test]
fn default_timer_works() {
    let mut tictoc = TicToc::new();
    assert!(tictoc.tic(None).is_ok());
}

#[test]
fn named_timer_works() {
    let mark = Some("test1");
    let mut tictoc = TicToc::new();
    assert!(tictoc.tic(mark).is_ok());
}

#[test]
fn multiple_named_timers_works() {
    let mark = Some("test1");
    let mark2 = Some("test2");
    let mut tictoc = TicToc::new();
    let _ = tictoc.tic(mark).unwrap();
    assert!(tictoc.tic(mark2).is_ok());
}

#[test]
fn timer_does_exists_works() {
    let mark = Some("test1");
    let mut tictoc = TicToc::new();
    let _ = tictoc.tic(mark).unwrap();
    assert!(tictoc.toc(mark).is_ok());
}

#[test]
fn multiple_timer_with_default_and_named_works() {
    let mark = Some("test1");
    let mut tictoc = TicToc::new();
    let _ = tictoc.tic(None).unwrap();
    assert!(tictoc.tic(mark).is_ok());
}

#[test]
fn result_comparison_works() {
    let mut tictoc = TicToc::new();
    let tic = tictoc.tic(None).unwrap();
    wait(10);
    let toc = tictoc.toc(None).unwrap();
    let diff = utc_of(&toc) - utc_of(&tic);
    assert_eq!(diff.num_milliseconds(), tictoc.time(None, None).unwrap());
    let local_diff = local_of(&toc) - local_of(&tic);
    assert_eq!(local_diff.num_milliseconds(), tictoc.local_time(None, None).unwrap());
}

#[test]
fn multiple_result_comparison_works() {
    let mark = Some("test1");
    let mut tictoc = TicToc::new();
    let tic = tictoc.tic(None).unwrap();
    wait(10);
    let toc = tictoc.toc(None).unwrap();
    let tic1 = tictoc.tic(mark).unwrap();
    wait(10);
    let toc1 = tictoc.toc(mark).unwrap();
    let diff = utc_of(&toc) - utc_of(&tic);
    let diff1 = utc_of(&toc1) - utc_of(&tic1);
    let result = tictoc.time(None, None).unwrap();
    let result1 = tictoc.time(mark, None).unwrap();
    assert_eq!(
        diff.num_milliseconds().eq(&result),
        diff1.num_milliseconds().eq(&result1)
    );
    assert_eq!(diff.num_milliseconds(), result);
    assert_eq!(diff1.num_milliseconds(), result1);
}

#[test]
fn multiple_result_comparison_fail() {
    let mark = Some("test1");
    let mut tictoc = TicToc::new();

    let tic = tictoc.tic(None).unwrap();
    wait(10);
    let toc = tictoc.toc(None).unwrap();
    let diff = utc_of(&toc) - utc_of(&tic);

    let _ = tictoc.tic(mark).unwrap();
    wait(10);
    let tic1: DateTime<Utc> = Utc::now();
    wait(10);
    let toc1 = tictoc.toc(mark).unwrap();
    let diff1 = utc_of(&toc1) - tic1;

    let result = tictoc.time(None, None).unwrap();
    let result1 = tictoc.time(mark, None).unwrap();
    assert_ne!(
        diff.num_milliseconds().eq(&result),
        diff1.num_milliseconds().eq(&result1)
    );
}

#[test]
fn result_comparison_fail() {
    let mut tictoc = TicToc::new();
    let _ = tictoc.tic(None).unwrap();
    wait(10);
    let tic: DateTime<Utc> = Utc::now();
    wait(10);
    let toc = tictoc.toc(None).unwrap();
    let diff = utc_of(&toc) - tic;
    assert_ne!(diff.num_milliseconds(), tictoc.time(None, None).unwrap());
}

#[test]
fn timer_doesnt_exists_fail() {
    let mark = Some("test1");
    let tictoc = TicToc::new();
    assert!(tictoc.time(mark, None).is_err());
}

#[test]
fn multiple_default_timers_fail() {
    let mut tictoc = TicToc::new();
    let _ = tictoc.tic(None).unwrap();
    assert!(tictoc.tic(None).is_err());
}

#[test]
fn timer_already_exists_fails() {
    let mark = Some("test1");
    let mut tictoc = TicToc::new();
    let _ = tictoc.tic(mark).unwrap();
    assert!(tictoc.tic(mark).is_err());
}

#[test]
fn round_trip_matches_an_independent_measurement() {
    let mut tictoc = TicToc::new();
    let outer = Instant::now();
    tictoc.tic(None).unwrap();
    let inner = Instant::now();
    wait(10);
    let inner = inner.elapsed();
    tictoc.toc(None).unwrap();
    let outer = outer.elapsed();

    let measured = tictoc.time(None, Some(TimeUnits::MilliSeconds)).unwrap();
    assert!(measured > 0);
    assert!(measured as u128 + 1 >= inner.as_millis());
    assert!(measured as u128 <= outer.as_millis() + 1);
}

#[test]
fn tic_reads_the_utc_clock() {
    let mut tictoc = TicToc::new();
    let before = Utc::now();
    let reading = tictoc.tic(None).unwrap();
    let after = Utc::now();
    assert!(before <= utc_of(&reading));
    assert!(utc_of(&reading) <= after);
    // Later than the first of January 2020.
    assert!(reading.utc.secs() > 1_577_836_800);
}

#[test]
fn toc_reads_the_local_clock() {
    let mut tictoc = TicToc::new();
    tictoc.tic(None).unwrap();
    let before = Local::now().naive_local();
    let reading = tictoc.toc(None).unwrap();
    let after = Local::now().naive_local();
    assert!(before <= local_of(&reading));
    assert!(local_of(&reading) <= after);
}

#[test]
fn the_two_clocks_differ_by_the_offset_of_the_zone() {
    let reading = Reading::now();
    let offset = Local::now().offset().local_minus_utc() as i64;
    let apart = reading.local.secs() - reading.utc.secs();
    assert!((apart - offset).abs() <= 1);
}

#[test]
fn a_running_timer_on_the_clock_has_no_result() {
    let mut tictoc = TicToc::new();
    tictoc.tic(Some("job")).unwrap();
    assert_eq!(tictoc.time(Some("job"), None), Err(TicTocError::TimerResultError));
    assert_eq!(tictoc.local_time(Some("job"), None), Err(TicTocError::TimerResultError));
}

#[test]
fn timers_on_the_clock_do_not_interfere() {
    let mut tictoc = TicToc::new();
    tictoc.tic(None).unwrap();
    wait(5);
    tictoc.tic(Some("inner")).unwrap();
    wait(5);
    tictoc.toc(Some("inner")).unwrap();
    let inner = tictoc.time(Some("inner"), Some(TimeUnits::MicroSeconds)).unwrap();
    wait(5);
    tictoc.toc(None).unwrap();
    let outer = tictoc.time(None, Some(TimeUnits::MicroSeconds)).unwrap();
    assert!(inner >= 4_900);
    assert!(outer >= inner + 9_800);
    assert_eq!(tictoc.time(Some("inner"), Some(TimeUnits::MicroSeconds)), Ok(inner));
}
