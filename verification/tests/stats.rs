use rust_in_action::pipeviewer::stats::{
    rate, stats, Arrival, Flow, Monitor, MonitorStep, ProgressSnapshot, TimeOutput,
};
use rust_in_action::pipeviewer::channel::counts_channel;

#[test]
fn test_time_format() {
    let pairs: Vec<(u64, &str)> = vec![
        (5, "0:00:05"),
        (60, "0:01:00"),
        (154, "0:02:34"),
        (3603, "1:00:03"),
    ];

    for (i, o) in pairs {
        assert_eq!(i.as_time().as_str(), o);
    }
}

#[test]
fn time_format_at_the_edges() {
    assert_eq!(0u64.as_time(), "0:00:00");
    assert_eq!(59u64.as_time(), "0:00:59");
    assert_eq!(3599u64.as_time(), "0:59:59");
    assert_eq!(3600u64.as_time(), "1:00:00");
    assert_eq!(36_000u64.as_time(), "10:00:00");
    assert_eq!(360_000u64.as_time(), "100:00:00");
    assert_eq!(u64::MAX.as_time(), "5124095576030431:00:15");
}

#[test]
fn rate_is_bytes_per_second_rounded_down() {
    assert_eq!(rate(1000, 1_000_000_000), 1000);
    assert_eq!(rate(16_384, 1_000_000), 16_384_000);
    assert_eq!(rate(1, 3), 333_333_333);
    assert_eq!(rate(7, 2_000_000_000), 3);
    assert_eq!(rate(0, 12_345), 0);
}

#[test]
fn rate_without_elapsed_time_is_the_count() {
    assert_eq!(rate(5, 0), 5);
    assert_eq!(rate(0, 0), 0);
    assert_eq!(rate(usize::MAX, 0), usize::MAX as u128);
}

#[test]
fn rate_of_the_largest_count() {
    assert_eq!(rate(usize::MAX, 1), usize::MAX as u128 * 1_000_000_000);
}

#[test]
fn progress_line_has_total_time_and_rate() {
    let snapshot = ProgressSnapshot { total_bytes: 12_345, elapsed_secs: 154, rate: 6_789 };
    assert_eq!(snapshot.bytes_text(), "12345 ");
    assert_eq!(snapshot.elapsed_text(), "0:02:34");
    assert_eq!(snapshot.rate_text(), " [6789b/s]");
    assert_eq!(snapshot.line(), "12345 0:02:34 [6789b/s]");
}

#[test]
fn progress_line_is_its_three_parts() {
    let snapshot = ProgressSnapshot { total_bytes: 0, elapsed_secs: 3603, rate: 0 };
    let parts = format!(
        "{}{}{}",
        snapshot.bytes_text(),
        snapshot.elapsed_text(),
        snapshot.rate_text()
    );
    assert_eq!(snapshot.line(), parts);
    assert_eq!(snapshot.line(), "0 1:00:03 [0b/s]");
}

#[test]
fn monitor_starts_empty_and_ready() {
    let monitor = Monitor::new(false);
    assert!(!monitor.silent);
    assert_eq!(monitor.total_bytes, 0);
    assert!(monitor.timer.ready);
    assert_eq!(monitor.timer.count_down, 0);
}

#[test]
fn monitor_draws_the_first_count_and_then_waits() {
    let mut monitor = Monitor::new(false);
    let first = monitor.observe(Some(100), 1_000, 0);
    assert_eq!(
        first,
        MonitorStep {
            shown: Some(ProgressSnapshot { total_bytes: 100, elapsed_secs: 0, rate: 100_000_000 }),
            flow: Flow::Continue,
        }
    );
    assert!(!monitor.timer.ready);
    assert_eq!(monitor.timer.count_down, 100_000_000);

    let second = monitor.observe(Some(50), 50_000_000, 0);
    assert_eq!(second, MonitorStep { shown: None, flow: Flow::Continue });
    assert_eq!(monitor.total_bytes, 150);
    assert_eq!(monitor.timer.count_down, 50_000_000);

    let third = monitor.observe(Some(50), 50_000_000, 0);
    assert_eq!(third.shown, None);
    assert_eq!(monitor.timer.count_down, 0);

    let fourth = monitor.observe(Some(25), 2_000_000_000, 2);
    assert_eq!(
        fourth.shown,
        Some(ProgressSnapshot { total_bytes: 225, elapsed_secs: 2, rate: 12 })
    );
    assert_eq!(monitor.timer.count_down, 100_000_000);
    assert!(!monitor.timer.ready);
}

#[test]
fn monitor_processes_the_sentinel_and_stops() {
    let mut monitor = Monitor::new(false);
    let step = monitor.observe(Some(0), 5, 7);
    assert_eq!(step.flow, Flow::Finished);
    assert_eq!(
        step.shown,
        Some(ProgressSnapshot { total_bytes: 0, elapsed_secs: 7, rate: 0 })
    );
    assert_eq!(monitor.total_bytes, 0);
}

#[test]
fn monitor_stops_on_a_closed_channel() {
    let mut monitor = Monitor::new(false);
    monitor.observe(Some(9), 1, 0);
    let step = monitor.observe(None, 1, 0);
    assert_eq!(step, MonitorStep { shown: None, flow: Flow::Finished });
    assert_eq!(monitor.total_bytes, 9);
}

#[test]
fn monitor_reports_a_total_that_does_not_fit() {
    let mut monitor = Monitor::new(false);
    monitor.observe(Some(usize::MAX - 1), 1, 0);
    let step = monitor.observe(Some(2), 1, 0);
    assert_eq!(step, MonitorStep { shown: None, flow: Flow::Overflow });
    assert_eq!(monitor.total_bytes, usize::MAX - 1);
    let step = monitor.observe(Some(1), 1, 0);
    assert_eq!(step.flow, Flow::Continue);
    assert_eq!(monitor.total_bytes, usize::MAX);
}

#[test]
fn silent_monitor_draws_nothing() {
    let mut monitor = Monitor::new(true);
    let deltas: Vec<u128> = vec![0, 1, 99_999_999, 100_000_000, 100_000_001, u128::MAX];
    for (i, delta) in deltas.iter().enumerate() {
        let step = monitor.observe(Some(16_384), *delta, i as u64);
        assert_eq!(step.shown, None);
        assert_eq!(step.flow, Flow::Continue);
    }
    let last = monitor.observe(Some(0), 1, 9);
    assert_eq!(last, MonitorStep { shown: None, flow: Flow::Finished });
    assert_eq!(monitor.total_bytes, 6 * 16_384);
    assert_eq!(monitor.closing_text(), "");
}

#[test]
fn closing_text_is_a_line_feed_unless_silent() {
    assert_eq!(Monitor::new(false).closing_text(), "\n");
    assert_eq!(Monitor::new(true).closing_text(), "");
}

#[test]
fn monitor_takes_counts_from_the_channel() {
    let (stats_tx, stats_rx) = counts_channel();
    stats_tx.send(10).unwrap();
    stats_tx.send(20).unwrap();
    stats_tx.send(0).unwrap();
    stats_tx.send(40).unwrap();
    let mut monitor = Monitor::new(false);

    let first = monitor.next(&stats_rx);
    assert_eq!(first.flow, Flow::Continue);
    let shown = first.shown.unwrap();
    assert_eq!(shown.total_bytes, 10);
    assert_eq!(shown.rate, rate(10, monitor.timer.delta));
    if monitor.timer.delta > 0 {
        assert_eq!(monitor.timer.count_down, 100_000_000);
    } else {
        assert_eq!(monitor.timer.count_down, 0);
    }

    let second = monitor.next(&stats_rx);
    assert_eq!(second.flow, Flow::Continue);
    assert_eq!(monitor.total_bytes, 30);

    let third = monitor.next(&stats_rx);
    assert_eq!(third.flow, Flow::Finished);
    assert_eq!(monitor.total_bytes, 30);
}

#[test]
fn monitor_stops_when_the_sender_is_gone() {
    let (stats_tx, stats_rx) = counts_channel();
    stats_tx.send(3).unwrap();
    drop(stats_tx);
    let mut monitor = Monitor::new(true);
    assert_eq!(monitor.next(&stats_rx), MonitorStep { shown: None, flow: Flow::Continue });
    assert_eq!(monitor.next(&stats_rx), MonitorStep { shown: None, flow: Flow::Finished });
    assert_eq!(monitor.total_bytes, 3);
}

#[test]
fn monitor_from_the_channel_reports_overflow() {
    let (stats_tx, stats_rx) = counts_channel();
    stats_tx.send(usize::MAX).unwrap();
    stats_tx.send(1).unwrap();
    let mut monitor = Monitor::new(true);
    assert_eq!(monitor.next(&stats_rx).flow, Flow::Continue);
    assert_eq!(monitor.next(&stats_rx).flow, Flow::Overflow);
    assert_eq!(monitor.total_bytes, usize::MAX);
}

#[test]
fn arrival_holds_what_the_monitor_meets() {
    let arrival = Arrival { message: Some(4), delta: 5, elapsed_secs: 6 };
    let mut monitor = Monitor::new(false);
    let step = monitor.observe(arrival.message, arrival.delta, arrival.elapsed_secs);
    assert_eq!(
        step.shown,
        Some(ProgressSnapshot { total_bytes: 4, elapsed_secs: 6, rate: 800_000_000 })
    );
}

#[test]
fn legacy_stats_adds_and_reports() {
    let mut total = 5;
    assert_eq!(stats(false, 10, &mut total, false), "\r15");
    assert_eq!(total, 15);
    assert_eq!(stats(false, 0, &mut total, true), "\r15\n");
    assert_eq!(total, 15);
}

#[test]
fn legacy_stats_is_quiet_when_silent() {
    let mut total = 0;
    assert_eq!(stats(true, 7, &mut total, false), "");
    assert_eq!(stats(true, 8, &mut total, true), "");
    assert_eq!(total, 15);
}
