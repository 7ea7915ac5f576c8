use rust_in_action::pipeviewer::stats::timer::{Timer, MAX_NANOS, PERIOD_NANOS};

#[test]
fn new_timer_is_ready_with_a_period_of_100_ms() {
    let timer = Timer::new();
    assert_eq!(timer.delta, 0);
    assert_eq!(timer.period, 100_000_000);
    assert_eq!(PERIOD_NANOS, 100_000_000);
    assert_eq!(timer.count_down, 0);
    assert!(timer.ready);
}

#[test]
fn tick_counts_down_and_fires_on_underflow() {
    let mut timer = Timer::new();
    timer.tick(30_000_000);
    assert!(timer.ready);
    assert_eq!(timer.delta, 30_000_000);
    assert_eq!(timer.count_down, 100_000_000);

    timer.ready = false;
    timer.tick(40_000_000);
    assert!(!timer.ready);
    assert_eq!(timer.count_down, 60_000_000);

    timer.tick(60_000_000);
    assert!(!timer.ready);
    assert_eq!(timer.count_down, 0);
    assert_eq!(timer.delta, 60_000_000);

    timer.tick(1);
    assert!(timer.ready);
    assert_eq!(timer.count_down, 100_000_000);
}

#[test]
fn tick_of_zero_changes_neither_countdown_nor_ready() {
    let mut timer = Timer::new();
    timer.ready = false;
    timer.tick(0);
    assert!(!timer.ready);
    assert_eq!(timer.count_down, 0);
    timer.tick(5);
    timer.ready = false;
    timer.tick(0);
    assert!(!timer.ready);
    assert_eq!(timer.count_down, 100_000_000);
}

#[test]
fn ready_stays_until_it_is_cleared() {
    let mut timer = Timer::new();
    timer.tick(1);
    timer.tick(1);
    timer.tick(1);
    assert!(timer.ready);
    assert_eq!(timer.count_down, 99_999_998);
}

#[test]
fn short_steps_add_up_to_one_firing() {
    let mut timer = Timer::new();
    timer.tick(1);
    timer.ready = false;
    let mut fired = 0;
    for _ in 0..25 {
        timer.tick(10_000_000);
        if timer.ready {
            fired += 1;
            timer.ready = false;
        }
    }
    assert_eq!(fired, 2);
}

#[test]
fn a_long_step_fires_once() {
    let mut timer = Timer::new();
    timer.ready = false;
    timer.tick(u128::MAX);
    assert!(timer.ready);
    assert_eq!(timer.count_down, 100_000_000);
    assert_eq!(timer.delta, u128::MAX);
}

#[test]
fn update_reads_the_clock() {
    let mut timer = Timer::new();
    timer.ready = false;
    timer.count_down = MAX_NANOS;
    timer.update();
    assert!(timer.delta <= MAX_NANOS);
    assert_eq!(timer.count_down, MAX_NANOS - timer.delta);
    assert!(!timer.ready);
    assert_eq!(timer.period, 100_000_000);
}

#[test]
fn update_fires_when_the_countdown_is_used_up() {
    let mut timer = Timer::new();
    timer.ready = false;
    let mut spins = 0u64;
    while !timer.ready {
        timer.update();
        spins += 1;
        assert!(spins < 1_000_000_000);
    }
    assert_eq!(timer.count_down, 100_000_000);
    assert!(timer.delta > 0);
}
