use gameplay_systems::timer::{Timer, CEILING};

#[test]
fn default_timer_shows_the_ceiling() {
    let timer = Timer::default();
    assert_eq!(timer.elapsed(), u64::MAX);
    assert_eq!(CEILING, u64::MAX);
}

#[test]
fn start_sets_timer_to_zero() {
    let mut timer = Timer::default();
    timer.start();
    assert_eq!(timer.elapsed(), 0);
}

#[test]
fn update_adds_the_step() {
    let mut timer = Timer::default();
    timer.start();
    timer.update(100_000);
    assert_eq!(timer.elapsed(), 100_000);
    timer.update(16_667);
    assert_eq!(timer.elapsed(), 116_667);
    timer.update(0);
    assert_eq!(timer.elapsed(), 116_667);
}

#[test]
fn update_stops_at_the_ceiling() {
    let mut timer = Timer::default();
    timer.update(1);
    assert_eq!(timer.elapsed(), CEILING);
    timer.start();
    timer.update(CEILING - 1);
    assert_eq!(timer.elapsed(), CEILING - 1);
    timer.update(1);
    assert_eq!(timer.elapsed(), CEILING);
    timer.update(5);
    assert_eq!(timer.elapsed(), CEILING);
}

#[test]
fn update_past_the_ceiling_clamps() {
    let mut timer = Timer::default();
    timer.start();
    timer.update(CEILING - 3);
    timer.update(10);
    assert_eq!(timer.elapsed(), CEILING);
}

#[test]
fn timer_never_goes_back_over_a_run() {
    let steps: [u64; 6] = [0, 1, 16_000, u64::MAX / 2, u64::MAX / 2, 7];
    let mut timer = Timer::default();
    timer.start();
    let mut last = timer.elapsed();
    for dt in steps {
        timer.update(dt);
        assert!(timer.elapsed() >= last);
        assert!(timer.elapsed() <= CEILING);
        last = timer.elapsed();
    }
    assert_eq!(last, CEILING);
}

#[test]
fn timer_converts_into_its_reading() {
    let mut timer = Timer::default();
    assert_eq!(u64::from(timer), CEILING);
    timer.start();
    timer.update(42);
    let reading: u64 = timer.into();
    assert_eq!(reading, 42);
}
