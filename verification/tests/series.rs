use ping_graph::feed::SampleFeed;
use ping_graph::outcome::{FailureReason, ProbeOutcome, Sample, SampleValue};
use ping_graph::series::{LossCounters, Monitor, SeriesBuffer};

fn success(ms: u64) -> ProbeOutcome {
    ProbeOutcome::Success { latency_ms: ms }
}

fn failure() -> ProbeOutcome {
    ProbeOutcome::Failure {
        reason: FailureReason::ProbeFailed("Ping failed: timed out".to_string()),
    }
}

#[test]
fn new_monitor_is_empty() {
    let monitor = Monitor::new();
    assert_eq!(monitor.len(), 0);
    assert_eq!(monitor.counters().total_attempts(), 0);
    assert_eq!(monitor.counters().lost_count(), 0);
    assert!(monitor.stats().is_none());
    assert!(monitor.series().as_slice().is_empty());
}

#[test]
fn indices_go_up_by_one_from_zero() {
    let mut monitor = Monitor::new();
    for n in 0..10u64 {
        let outcome = if n % 3 == 0 { failure() } else { success(n) };
        let sample = monitor.record(&outcome);
        assert_eq!(sample.sequence_index, n);
    }
    let samples = monitor.series().as_slice();
    assert_eq!(samples.len(), 10);
    for (i, sample) in samples.iter().enumerate() {
        assert_eq!(sample.sequence_index, i as u64);
    }
}

#[test]
fn record_keeps_the_value_or_marks_the_loss() {
    let mut monitor = Monitor::new();
    assert_eq!(
        monitor.record(&success(15)),
        Sample { sequence_index: 0, value: SampleValue::Measured(15) }
    );
    assert_eq!(monitor.record(&failure()), Sample { sequence_index: 1, value: SampleValue::Lost });
    assert_eq!(
        monitor.record(&success(0)),
        Sample { sequence_index: 2, value: SampleValue::Measured(0) }
    );
    assert_eq!(
        monitor.series().as_slice(),
        &[
            Sample { sequence_index: 0, value: SampleValue::Measured(15) },
            Sample { sequence_index: 1, value: SampleValue::Lost },
            Sample { sequence_index: 2, value: SampleValue::Measured(0) },
        ]
    );
}

#[test]
fn lost_samples_count_as_attempts_and_losses() {
    let mut monitor = Monitor::new();
    monitor.record(&success(10));
    assert_eq!(monitor.counters().total_attempts(), 1);
    assert_eq!(monitor.counters().lost_count(), 0);
    monitor.record(&failure());
    assert_eq!(monitor.counters().total_attempts(), 2);
    assert_eq!(monitor.counters().lost_count(), 1);
    let before = monitor.stats().unwrap();
    monitor.record(&failure());
    assert_eq!(monitor.counters().total_attempts(), 3);
    assert_eq!(monitor.counters().lost_count(), 2);
    let after = monitor.stats().unwrap();
    assert_eq!(
        (before.best(), before.worst(), before.sum(), before.count()),
        (after.best(), after.worst(), after.sum(), after.count())
    );
    assert_eq!((after.best(), after.worst(), after.sum(), after.count()), (10, 10, 10, 1));
}

#[test]
fn loss_percent_is_a_hundred_times_lost_over_total() {
    assert_eq!(LossCounters::new().loss_percent(), 0);
    assert_eq!(LossCounters::new().loss_tenths(), 0);
    let one_of_three = LossCounters::new().counted(true).counted(false).counted(false);
    assert_eq!(one_of_three.total_attempts(), 3);
    assert_eq!(one_of_three.lost_count(), 1);
    assert_eq!(one_of_three.loss_percent(), 33);
    assert_eq!(one_of_three.loss_tenths(), 333);
    let two_of_three = one_of_three.counted(true).counted(true).counted(false).counted(false);
    assert_eq!(two_of_three.total_attempts(), 7);
    assert_eq!(two_of_three.lost_count(), 3);
    assert_eq!(two_of_three.loss_percent(), 42);
    assert_eq!(two_of_three.loss_tenths(), 429);
    let all = LossCounters::new().counted(true).counted(true);
    assert_eq!(all.loss_percent(), 100);
    assert_eq!(all.loss_tenths(), 1000);
    let none = LossCounters::new().counted(false);
    assert_eq!(none.loss_percent(), 0);
    assert_eq!(none.loss_tenths(), 0);
}

#[test]
fn loss_tenths_round_a_half_upwards() {
    // 1 of 2000 = 0.05 % -> 0.1 %
    let mut counters = LossCounters::new().counted(true);
    for _ in 1..2000 {
        counters = counters.counted(false);
    }
    assert_eq!(counters.total_attempts(), 2000);
    assert_eq!(counters.loss_tenths(), 1);
    assert_eq!(counters.loss_percent(), 0);
}

#[test]
fn absorb_appends_in_order() {
    let mut monitor = Monitor::new();
    monitor.record(&success(1));
    monitor.absorb(&vec![success(2), failure(), success(3)]);
    assert_eq!(
        monitor.series().as_slice(),
        &[
            Sample { sequence_index: 0, value: SampleValue::Measured(1) },
            Sample { sequence_index: 1, value: SampleValue::Measured(2) },
            Sample { sequence_index: 2, value: SampleValue::Lost },
            Sample { sequence_index: 3, value: SampleValue::Measured(3) },
        ]
    );
    assert_eq!(monitor.counters().total_attempts(), 4);
    assert_eq!(monitor.counters().lost_count(), 1);
    let stats = monitor.stats().unwrap();
    assert_eq!((stats.best(), stats.worst(), stats.sum(), stats.count()), (1, 3, 6, 3));
}

#[test]
fn absorbing_nothing_changes_nothing() {
    let mut monitor = Monitor::new();
    monitor.record(&success(4));
    monitor.absorb(&vec![]);
    assert_eq!(monitor.len(), 1);
    assert_eq!(monitor.counters().total_attempts(), 1);
}

#[test]
fn reset_clears_series_counters_and_stats() {
    let mut monitor = Monitor::new();
    monitor.absorb(&vec![success(5), failure(), success(6)]);
    monitor.reset();
    assert_eq!(monitor.len(), 0);
    assert_eq!(monitor.counters().total_attempts(), 0);
    assert_eq!(monitor.counters().lost_count(), 0);
    assert!(monitor.stats().is_none());
    assert_eq!(monitor.record(&failure()).sequence_index, 0);
    assert_eq!(monitor.record(&success(1)).sequence_index, 1);
}

#[test]
fn series_buffer_numbers_its_samples() {
    let mut series = SeriesBuffer::new();
    assert_eq!(series.len(), 0);
    assert_eq!(series.get(0), None);
    let first = series.append(SampleValue::Lost);
    let second = series.append(SampleValue::Measured(8));
    assert_eq!(first, Sample { sequence_index: 0, value: SampleValue::Lost });
    assert_eq!(second, Sample { sequence_index: 1, value: SampleValue::Measured(8) });
    assert_eq!(series.len(), 2);
    assert_eq!(series.get(1), Some(second));
    assert_eq!(series.get(2), None);
    assert!(first.is_lost());
    assert!(!second.is_lost());
    assert_eq!(first.latency_ms(), None);
    assert_eq!(second.latency_ms(), Some(8));
    series.clear();
    assert_eq!(series.len(), 0);
    assert_eq!(series.append(SampleValue::Measured(2)).sequence_index, 0);
}

#[test]
fn feed_hands_out_in_the_order_sent() {
    let mut feed = SampleFeed::new();
    assert_eq!(feed.pending(), 0);
    feed.send(success(1));
    feed.send(failure());
    feed.send(success(2));
    assert_eq!(feed.pending(), 3);
    assert_eq!(feed.drain(), vec![success(1), failure(), success(2)]);
    assert_eq!(feed.pending(), 0);
}

#[test]
fn draining_an_empty_feed_gives_nothing() {
    let mut feed = SampleFeed::new();
    assert!(feed.drain().is_empty());
    feed.send(success(9));
    assert_eq!(feed.drain(), vec![success(9)]);
    assert!(feed.drain().is_empty());
}

#[test]
fn defaults_are_the_starting_values() {
    assert_eq!(Monitor::default().len(), 0);
    assert!(Monitor::default().stats().is_none());
    assert_eq!(SeriesBuffer::default().len(), 0);
    assert_eq!(LossCounters::default().total_attempts(), 0);
    assert_eq!(LossCounters::default().lost_count(), 0);
    assert_eq!(SampleFeed::default().pending(), 0);
    assert_eq!(ping_graph::target::TargetState::default().get_address(), "8.8.8.8");
    assert_eq!(ping_graph::target::TargetState::default().get_last_error(), "");
    assert_eq!(ping_graph::render::AxisScale::default(), ping_graph::render::AxisScale::new());
    assert_eq!(
        ping_graph::sampler::SamplerState::default(),
        ping_graph::sampler::SamplerState::Idle
    );
}
