use ping_graph::outcome::{FailureReason, ProbeOutcome, SampleValue};
use ping_graph::render::stats_line;
use ping_graph::series::Monitor;

/// The same statistics computed in floating point over plot points, where
/// a lost sample is a NaN.
fn float_stats(points: &[[f64; 2]]) -> Option<(f64, f64, f64)> {
    let mut min = f64::INFINITY;
    let mut max = f64::NEG_INFINITY;
    let mut total = 0.0;
    let mut count = 0;
    for &[_, y] in points.iter() {
        if y.is_nan() {
            continue;
        }
        if y < min {
            min = y;
        }
        if y > max {
            max = y;
        }
        total += y;
        count += 1;
    }
    if count == 0 {
        return None;
    }
    Some((min, max, total / count as f64))
}

fn float_line(points: &[[f64; 2]]) -> String {
    let total = points.len();
    let lost = points.iter().filter(|p| p[1].is_nan()).count();
    match float_stats(points) {
        Some((best, worst, average)) => {
            let loss = if total == 0 { 0.0 } else { (lost as f64 / total as f64) * 100.0 };
            format!(
                "{:.2}ms best, {:.2}ms worst, {:.2}ms average \u{2014} Loss: {:.1}% ({}/{})",
                best, worst, average, loss, lost, total
            )
        }
        None => "No ping times available.".to_string(),
    }
}

fn outcome_of(value: SampleValue) -> ProbeOutcome {
    match value {
        SampleValue::Measured(ms) => ProbeOutcome::Success { latency_ms: ms },
        SampleValue::Lost => ProbeOutcome::Failure {
            reason: FailureReason::ProbeFailed("Ping failed: timed out".to_string()),
        },
    }
}

/// Every series of up to five samples over a few values.
fn small_series() -> Vec<Vec<SampleValue>> {
    let alphabet = [
        SampleValue::Lost,
        SampleValue::Measured(0),
        SampleValue::Measured(1),
        SampleValue::Measured(7),
        SampleValue::Measured(10),
        SampleValue::Measured(333),
    ];
    let mut all: Vec<Vec<SampleValue>> = vec![vec![]];
    let mut last: Vec<Vec<SampleValue>> = vec![vec![]];
    for _ in 0..5 {
        let mut next = Vec::new();
        for series in last.iter() {
            for value in alphabet.iter() {
                let mut longer = series.clone();
                longer.push(*value);
                next.push(longer);
            }
        }
        all.extend(next.iter().cloned());
        last = next;
    }
    all
}

#[test]
fn stats_agree_with_floating_point() {
    for values in small_series() {
        let mut monitor = Monitor::new();
        let mut points: Vec<[f64; 2]> = Vec::new();
        for value in values.iter() {
            let sample = monitor.record(&outcome_of(*value));
            let y = match sample.value {
                SampleValue::Measured(ms) => ms as f64,
                SampleValue::Lost => f64::NAN,
            };
            points.push([sample.sequence_index as f64, y]);
        }
        let exact = monitor
            .stats()
            .map(|s| (s.best() as f64, s.worst() as f64, s.sum() as f64 / s.count() as f64));
        let float = float_stats(&points);
        assert_eq!(
            exact.map(|(a, b, c)| (a.to_bits(), b.to_bits(), c.to_bits())),
            float.map(|(a, b, c)| (a.to_bits(), b.to_bits(), c.to_bits()))
        );
    }
}

#[test]
fn stats_line_agrees_with_floating_point_formatting() {
    // with fewer than eight samples no average lies exactly between two
    // hundredths and no loss exactly between two tenths of a percent
    for values in small_series() {
        let mut monitor = Monitor::new();
        let mut points: Vec<[f64; 2]> = Vec::new();
        for value in values.iter() {
            let sample = monitor.record(&outcome_of(*value));
            let y = match sample.value {
                SampleValue::Measured(ms) => ms as f64,
                SampleValue::Lost => f64::NAN,
            };
            points.push([sample.sequence_index as f64, y]);
        }
        assert_eq!(stats_line(&monitor.stats(), &monitor.counters()), float_line(&points));
    }
}
