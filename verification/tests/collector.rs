use naps::stats::{step, Collector, StatsAction, StatsEvent, Turn};
use std::time::Instant;

const SECOND: u128 = 1_000_000_000;

#[test]
fn a_new_collector_has_counted_nothing() {
    let collector = Collector::new();
    assert_eq!(collector.total_bytes, 0);
    assert!(!collector.finished);
    assert!(collector.timer.ready);
    assert_eq!(collector.timer.countdown, 0);
}

#[test]
fn the_first_sample_renders_at_once() {
    let mut collector = Collector::new();
    let turn = collector.count(10, Instant::now(), 0, false);
    assert_eq!(turn, Turn { render: true, done: false, end_line: false });
    assert_eq!(collector.total_bytes, 10);
    assert!(!collector.timer.ready);
}

#[test]
fn rendering_is_throttled_to_once_per_period() {
    let mut collector = Collector::new();
    assert!(collector.count(1, Instant::now(), 1, false).render);
    // The countdown was armed with the whole period by the tick above.
    assert_eq!(collector.timer.countdown, SECOND);
    assert!(!collector.count(2, Instant::now(), SECOND / 2, false).render);
    assert!(!collector.count(3, Instant::now(), SECOND / 2, false).render);
    assert_eq!(collector.timer.countdown, 0);
    assert!(collector.count(4, Instant::now(), 1, false).render);
    assert_eq!(collector.timer.countdown, SECOND);
    assert_eq!(collector.total_bytes, 10);
}

#[test]
fn a_silent_collector_counts_and_never_renders() {
    let mut collector = Collector::new();
    let turn = collector.count(7, Instant::now(), 5 * SECOND, true);
    assert_eq!(turn, Turn { render: false, done: false, end_line: false });
    assert_eq!(collector.total_bytes, 7);
    assert!(collector.timer.ready);
    let turn = collector.count(0, Instant::now(), 5 * SECOND, true);
    assert_eq!(turn, Turn { render: false, done: true, end_line: false });
}

#[test]
fn the_sentinel_ends_the_collection_and_closes_the_line() {
    let mut collector = Collector::new();
    collector.count(100, Instant::now(), 10, false);
    let turn = collector.count(0, Instant::now(), 10, false);
    assert!(turn.done);
    assert!(turn.end_line);
    assert!(collector.finished);
    assert_eq!(collector.total_bytes, 100);
}

#[test]
fn nothing_is_counted_after_the_sentinel() {
    let mut collector = Collector::new();
    collector.count(100, Instant::now(), 10, false);
    collector.count(0, Instant::now(), 10, false);
    let delta = collector.timer.delta;
    let countdown = collector.timer.countdown;
    let turn = collector.count(50, Instant::now(), 3 * SECOND, false);
    assert_eq!(turn, Turn { render: false, done: true, end_line: false });
    assert_eq!(collector.total_bytes, 100);
    assert_eq!(collector.timer.delta, delta);
    assert_eq!(collector.timer.countdown, countdown);
    let tally = collector.record(50, false);
    assert!(tally.progress.is_none());
    assert!(tally.done);
    assert!(!tally.end_line);
    assert_eq!(collector.total_bytes, 100);
}

#[test]
fn progress_holds_the_total_and_the_clock() {
    let mut collector = Collector::new();
    collector.count(3 * 1024 * 1024, Instant::now(), 10, true);
    let progress = collector.progress(154);
    assert_eq!(progress.bytes, "3 MB ");
    assert_eq!(progress.elapsed_secs, 154);
    assert_eq!(progress.elapsed, "0:02:34");
}

#[test]
fn record_reads_the_clock_and_renders_the_first_sample() {
    let mut collector = Collector::new();
    let begun = Instant::now();
    while Instant::now() == begun {}
    let tally = collector.record(2048, false);
    assert!(!tally.done);
    assert!(!tally.end_line);
    let progress = tally.progress.expect("a new collector is ready");
    assert_eq!(progress.bytes, "2 KB ");
    assert_eq!(progress.elapsed, "0:00:00");
    assert_eq!(collector.total_bytes, 2048);
    assert!(!collector.timer.ready);
    assert!(collector.timer.delta > 0);
    assert_eq!(collector.timer.countdown, SECOND);
    let tally = collector.record(1, false);
    assert!(tally.progress.is_none());
    assert_eq!(collector.total_bytes, 2049);
    let tally = collector.record(0, false);
    assert!(tally.done);
    assert!(tally.end_line);
}

#[test]
fn the_stage_starts_by_receiving() {
    assert!(matches!(step(StatsEvent::Started), StatsAction::Receive));
}

#[test]
fn the_stage_goes_on_until_the_collection_is_over() {
    let going = Turn { render: true, done: false, end_line: false };
    assert!(matches!(step(StatsEvent::Recorded(going)), StatsAction::Receive));
    let quiet = Turn { render: false, done: false, end_line: false };
    assert!(matches!(step(StatsEvent::Recorded(quiet)), StatsAction::Receive));
    let over = Turn { render: false, done: true, end_line: true };
    assert!(matches!(step(StatsEvent::Recorded(over)), StatsAction::Finish(Ok(()))));
}

/// Runs the stage on `samples`, each a microsecond after the last, and
/// says how many it received, what totals it rendered, how often it
/// closed the line and how it ended.
fn run_stage(samples: &[usize], silent: bool) -> (usize, Vec<usize>, usize, bool) {
    let mut collector = Collector::new();
    let mut queue = samples.iter();
    let mut received = 0;
    let mut rendered = Vec::new();
    let mut lines = 0;
    let mut action = step(StatsEvent::Started);
    loop {
        let event = match action {
            StatsAction::Receive => {
                let sample = *queue.next().expect("the stage asks for no more than was queued");
                received += 1;
                let turn = collector.count(sample, Instant::now(), 1_000, silent);
                if turn.render {
                    rendered.push(collector.total_bytes);
                }
                if turn.end_line {
                    lines += 1;
                }
                StatsEvent::Recorded(turn)
            },
            StatsAction::Finish(ending) => return (received, rendered, lines, ending.is_ok()),
        };
        action = step(event);
    }
}

#[test]
fn the_stage_ends_on_the_first_zero_and_receives_nothing_after_it() {
    let (received, _, lines, ended_well) = run_stage(&[5, 7, 0, 9, 0, 11], false);
    assert_eq!(received, 3);
    assert_eq!(lines, 1);
    assert!(ended_well);
    let (received, _, lines, ended_well) = run_stage(&[0, 1, 2], false);
    assert_eq!(received, 1);
    assert_eq!(lines, 1);
    assert!(ended_well);
}

#[test]
fn a_silent_stage_ends_on_the_first_zero_without_a_line() {
    let (received, rendered, lines, ended_well) = run_stage(&[5, 7, 0, 9], true);
    assert_eq!(received, 3);
    assert!(rendered.is_empty());
    assert_eq!(lines, 0);
    assert!(ended_well);
}

#[test]
fn every_rendered_total_is_a_running_sum_up_to_the_sentinel() {
    // A microsecond apart, only the first sample finds the timer ready.
    let (_, rendered, _, _) = run_stage(&[5, 7, 0, 9], false);
    assert_eq!(rendered, vec![5]);
    let (received, rendered, lines, _) = run_stage(&[0, 9], false);
    assert_eq!(received, 1);
    assert_eq!(rendered, vec![0]);
    assert_eq!(lines, 1);
}
