use ping_graph::outcome::{FailureReason, ProbeOutcome, Sample, SampleValue};
use ping_graph::render::{
    decimal, format_hundredths, format_tenths, frame_pause, latency_line, loss_line, stats_line,
    AxisScale,
};
use ping_graph::series::{LossCounters, Monitor};
use ping_graph::stats::calculate_ping_stats;
use ping_graph::target::{truncate_for_display, TargetState};

fn measured(values: &[u64]) -> Vec<Sample> {
    let mut series = Vec::new();
    for (i, value) in values.iter().enumerate() {
        series.push(Sample { sequence_index: i as u64, value: SampleValue::Measured(*value) });
    }
    series
}

#[test]
fn decimal_writes_digits_without_leading_zeros() {
    assert_eq!(decimal(0), "0");
    assert_eq!(decimal(7), "7");
    assert_eq!(decimal(10), "10");
    assert_eq!(decimal(1234567890), "1234567890");
    assert_eq!(decimal(u64::MAX as u128), "18446744073709551615");
    assert_eq!(decimal(u128::MAX), "340282366920938463463374607431768211455");
}

#[test]
fn hundredths_are_written_with_two_decimals() {
    assert_eq!(format_hundredths(0), "0.00");
    assert_eq!(format_hundredths(5), "0.05");
    assert_eq!(format_hundredths(50), "0.50");
    assert_eq!(format_hundredths(2000), "20.00");
    assert_eq!(format_hundredths(123456), "1234.56");
}

#[test]
fn tenths_are_written_with_one_decimal() {
    assert_eq!(format_tenths(0), "0.0");
    assert_eq!(format_tenths(333), "33.3");
    assert_eq!(format_tenths(1000), "100.0");
}

#[test]
fn latency_line_shows_best_worst_and_average() {
    let stats = calculate_ping_stats(&measured(&[10, 30, 20]));
    assert_eq!(latency_line(&stats), "10.00ms best, 30.00ms worst, 20.00ms average");
    let stats = calculate_ping_stats(&measured(&[1, 2, 2]));
    assert_eq!(latency_line(&stats), "1.00ms best, 2.00ms worst, 1.67ms average");
}

#[test]
fn latency_line_without_stats_is_a_notice() {
    assert_eq!(latency_line(&None), "No ping times available.");
    assert_eq!(stats_line(&None, &LossCounters::new()), "No ping times available.");
    let all_lost = LossCounters::new().counted(true);
    assert_eq!(stats_line(&None, &all_lost), "No ping times available.");
}

#[test]
fn loss_line_shows_percent_and_counts() {
    assert_eq!(loss_line(&LossCounters::new()), "Loss: 0.0% (0/0)");
    let one_of_three = LossCounters::new().counted(true).counted(false).counted(false);
    assert_eq!(loss_line(&one_of_three), "Loss: 33.3% (1/3)");
    let all = LossCounters::new().counted(true);
    assert_eq!(loss_line(&all), "Loss: 100.0% (1/1)");
}

#[test]
fn stats_line_joins_latency_and_loss() {
    let mut monitor = Monitor::new();
    monitor.record(&ProbeOutcome::Success { latency_ms: 12 });
    monitor.record(&ProbeOutcome::Failure {
        reason: FailureReason::ProbeFailed("Ping failed: timed out".to_string()),
    });
    monitor.record(&ProbeOutcome::Success { latency_ms: 15 });
    assert_eq!(
        stats_line(&monitor.stats(), &monitor.counters()),
        "12.00ms best, 15.00ms worst, 13.50ms average \u{2014} Loss: 33.3% (1/3)"
    );
}

#[test]
fn automatic_axis_keeps_headroom_above_the_worst() {
    let scale = AxisScale::new();
    assert!(scale.auto);
    assert_eq!(scale.manual_max, 200);
    assert_eq!(scale.upper_bound(&None), 110);
    assert_eq!(scale.upper_bound(&calculate_ping_stats(&measured(&[10, 30, 20]))), 40);
    assert_eq!(scale.upper_bound(&calculate_ping_stats(&measured(&[0]))), 10);
    assert_eq!(scale.upper_bound(&calculate_ping_stats(&measured(&[u64::MAX]))), u64::MAX);
    assert_eq!(scale.upper_bound(&calculate_ping_stats(&measured(&[u64::MAX - 10]))), u64::MAX);
    assert_eq!(
        scale.upper_bound(&calculate_ping_stats(&measured(&[u64::MAX - 11]))),
        u64::MAX - 1
    );
}

#[test]
fn pinned_axis_stays_within_its_range() {
    let stats = calculate_ping_stats(&measured(&[500]));
    assert_eq!(AxisScale { auto: false, manual_max: 200 }.upper_bound(&stats), 200);
    assert_eq!(AxisScale { auto: false, manual_max: 10 }.upper_bound(&stats), 10);
    assert_eq!(AxisScale { auto: false, manual_max: 2000 }.upper_bound(&stats), 2000);
    assert_eq!(AxisScale { auto: false, manual_max: 9 }.upper_bound(&stats), 10);
    assert_eq!(AxisScale { auto: false, manual_max: 0 }.upper_bound(&None), 10);
    assert_eq!(AxisScale { auto: false, manual_max: 2001 }.upper_bound(&stats), 2000);
    assert_eq!(AxisScale { auto: false, manual_max: u64::MAX }.upper_bound(&None), 2000);
}

#[test]
fn short_text_is_shown_in_full() {
    assert_eq!(truncate_for_display("", 90), "");
    assert_eq!(truncate_for_display("Ping failed: timed out", 90), "Ping failed: timed out");
    let exactly = "x".repeat(90);
    assert_eq!(truncate_for_display(&exactly, 90), exactly);
}

#[test]
fn long_text_is_cut_to_the_limit() {
    let long = "y".repeat(91);
    assert_eq!(truncate_for_display(&long, 90), "y".repeat(90));
    assert_eq!(truncate_for_display("abcdef", 3), "abc");
    assert_eq!(truncate_for_display("abcdef", 0), "");
}

#[test]
fn truncation_counts_characters_not_bytes() {
    let text = "\u{e9}".repeat(100);
    let shown = truncate_for_display(&text, 90);
    assert_eq!(shown.chars().count(), 90);
    assert_eq!(shown, "\u{e9}".repeat(90));
    assert_eq!(truncate_for_display("a\u{1f600}b", 2), "a\u{1f600}");
}

#[test]
fn target_state_starts_with_the_default_address() {
    let state = TargetState::new();
    assert_eq!(state.get_address(), "8.8.8.8");
    assert_eq!(state.get_last_error(), "");
    assert_eq!(state.display_error(), "");
}

#[test]
fn target_state_keeps_the_last_write() {
    let mut state = TargetState::new();
    state.set_address("example.com".to_string());
    state.set_address("1.1.1.1".to_string());
    assert_eq!(state.get_address(), "1.1.1.1");
    assert_eq!(state.get_last_error(), "");
    state.set_last_error("first".to_string());
    state.set_last_error("second".to_string());
    assert_eq!(state.get_last_error(), "second");
    assert_eq!(state.get_address(), "1.1.1.1");
}

#[test]
fn address_is_stored_in_full() {
    let mut state = TargetState::new();
    let long = "a".repeat(300);
    state.set_address(long.clone());
    assert_eq!(state.get_address(), long);
}

#[test]
fn outcome_replaces_the_error_text() {
    let mut state = TargetState::new();
    state.record_outcome(&ProbeOutcome::Failure {
        reason: FailureReason::ResolutionFailed("Could not resolve address: nowhere".to_string()),
    });
    assert_eq!(state.get_last_error(), "Could not resolve address: nowhere");
    state.record_outcome(&ProbeOutcome::Success { latency_ms: 20 });
    assert_eq!(state.get_last_error(), "");
    assert_eq!(state.get_address(), "8.8.8.8");
}

#[test]
fn displayed_address_is_cut_but_stored_in_full() {
    let mut state = TargetState::new();
    assert_eq!(state.display_address(), "8.8.8.8");
    let long = "h".repeat(120);
    state.set_address(long.clone());
    assert_eq!(state.display_address(), "h".repeat(90));
    assert_eq!(state.get_address(), long);
}

#[test]
fn displayed_error_is_cut_to_ninety_characters() {
    let mut state = TargetState::new();
    let long = format!("Ping failed: {}", "z".repeat(200));
    state.set_last_error(long.clone());
    assert_eq!(state.display_error(), long[..90].to_string());
    assert_eq!(state.get_last_error(), long);
}

#[test]
fn frames_are_paced_by_focus() {
    assert_eq!(frame_pause(true), 6);
    assert_eq!(frame_pause(false), 200);
}
