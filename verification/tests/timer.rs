use num::BigInt;
use num::BigRational;
use playground::rational::Rational;
use playground::timer::Timer;

fn ms(n: i64) -> Rational {
    Rational::from_int(n)
}

fn reading(timer: &Timer, now: i64) -> BigRational {
    timer.read(&ms(now)).into_big()
}

fn whole_ms(n: i64) -> BigRational {
    BigRational::from_integer(BigInt::from(n))
}

#[test]
fn fresh_timer_reads_zero() {
    let timer = Timer::new();
    assert_eq!(reading(&timer, 0), whole_ms(0));
    assert_eq!(reading(&timer, 5000), whole_ms(0));
}

#[test]
fn reset_starts_the_clock() {
    let mut timer = Timer::new();
    timer.reset(&ms(1000));
    assert_eq!(reading(&timer, 1000), whole_ms(0));
    assert_eq!(reading(&timer, 1250), whole_ms(250));
}

#[test]
fn pause_freezes_the_reading() {
    let mut timer = Timer::new();
    timer.reset(&ms(100));
    timer.pause(&ms(400));
    assert_eq!(reading(&timer, 400), whole_ms(300));
    assert_eq!(reading(&timer, 9000), whole_ms(300));
}

#[test]
fn second_pause_is_ignored() {
    let mut timer = Timer::new();
    timer.reset(&ms(100));
    timer.pause(&ms(400));
    timer.pause(&ms(700));
    assert_eq!(reading(&timer, 9000), whole_ms(300));
}

#[test]
fn resume_skips_the_pause() {
    let mut timer = Timer::new();
    timer.reset(&ms(100));
    timer.pause(&ms(400));
    timer.resume(&ms(1000));
    assert_eq!(reading(&timer, 1000), whole_ms(300));
    assert_eq!(reading(&timer, 1200), whole_ms(500));
}

#[test]
fn resume_without_pause_changes_nothing() {
    let mut timer = Timer::new();
    timer.reset(&ms(100));
    timer.resume(&ms(1000));
    assert_eq!(reading(&timer, 1200), whole_ms(1100));
}

#[test]
fn pause_before_start_reads_zero() {
    let mut timer = Timer::new();
    timer.pause(&ms(50));
    assert_eq!(reading(&timer, 80), whole_ms(0));
    timer.resume(&ms(90));
    assert_eq!(reading(&timer, 120), whole_ms(0));
}

#[test]
fn reset_clears_a_pause() {
    let mut timer = Timer::new();
    timer.reset(&ms(0));
    timer.pause(&ms(10));
    timer.reset(&ms(100));
    assert_eq!(reading(&timer, 130), whole_ms(30));
}

#[test]
fn update_changes_nothing() {
    let mut timer = Timer::new();
    timer.reset(&ms(10));
    timer.update(&ms(500));
    assert_eq!(reading(&timer, 20), whole_ms(10));
}

#[test]
fn fractional_milliseconds_are_exact() {
    let mut timer = Timer::new();
    timer.reset(&Rational::new(1, 3));
    let elapsed = timer.read(&Rational::new(1, 2)).into_big();
    assert_eq!(elapsed, BigRational::new(BigInt::from(1), BigInt::from(6)));
}
