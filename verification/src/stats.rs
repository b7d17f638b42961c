//! Summary statistics over the measured samples of a series.

use vstd::prelude::*;
use vstd::arithmetic::div_mod::{lemma_fundamental_div_mod, lemma_hoist_over_denominator};
use crate::outcome::{Sample, SampleValue};

verus! {

/// The latencies of the samples of `series` that measured one, in the order
/// of the series. Lost samples leave no trace in it.
pub open spec fn measured(series: Seq<Sample>) -> Seq<u64>
    decreases series.len(),
{
    if series.len() == 0 {
        Seq::empty()
    } else {
        let earlier = measured(series.drop_last());
        match series.last().value {
            SampleValue::Measured(ms) => earlier.push(ms),
            SampleValue::Lost => earlier,
        }
    }
}

/// The number of lost samples in `series`.
pub open spec fn lost_in(series: Seq<Sample>) -> nat {
    (series.len() - measured(series).len()) as nat
}

/// The sum of `values`.
pub open spec fn total(values: Seq<u64>) -> nat
    decreases values.len(),
{
    if values.len() == 0 {
        0
    } else {
        total(values.drop_last()) + values.last() as nat
    }
}

/// `m` is the least of `values`.
pub open spec fn is_least(values: Seq<u64>, m: u64) -> bool {
    &&& values.contains(m)
    &&& forall|i: int| 0 <= i < values.len() ==> m <= #[trigger] values[i]
}

/// `m` is the greatest of `values`.
pub open spec fn is_greatest(values: Seq<u64>, m: u64) -> bool {
    &&& values.contains(m)
    &&& forall|i: int| 0 <= i < values.len() ==> m >= #[trigger] values[i]
}

/// The least of `values`, which must not be empty.
pub open spec fn least(values: Seq<u64>) -> u64 {
    choose|m: u64| is_least(values, m)
}

/// The greatest of `values`, which must not be empty.
pub open spec fn greatest(values: Seq<u64>) -> u64 {
    choose|m: u64| is_greatest(values, m)
}

/// The mathematical value of a [`Stats`].
pub struct StatsView {
    /// The least latency.
    pub best: u64,
    /// The greatest latency.
    pub worst: u64,
    /// The sum of the latencies.
    pub sum: nat,
    /// The number of latencies.
    pub count: nat,
}

impl StatsView {
    /// The arithmetic mean `sum / count` in hundredths of a millisecond,
    /// rounded to the nearest, a half upwards.
    pub open spec fn average_hundredths(self) -> nat {
        ((200 * self.sum + self.count) / (2 * self.count)) as nat
    }
}

/// The statistics of `values`: none for no value; otherwise the least, the
/// greatest, the sum and the number of them.
pub open spec fn summary(values: Seq<u64>) -> Option<StatsView> {
    if values.len() == 0 {
        None
    } else {
        Some(
            StatsView {
                best: least(values),
                worst: greatest(values),
                sum: total(values),
                count: values.len(),
            },
        )
    }
}

/// Best, worst and average latency of a series. The average is held as the
/// exact sum and count.
#[derive(Clone, Copy, Debug)]
pub struct Stats {
    best: u64,
    worst: u64,
    sum: u128,
    count: u64,
}

impl View for Stats {
    type V = StatsView;

    closed spec fn view(&self) -> StatsView {
        StatsView {
            best: self.best,
            worst: self.worst,
            sum: self.sum as nat,
            count: self.count as nat,
        }
    }
}

/// The mathematical value of an optional [`Stats`].
pub open spec fn stats_view(stats: Option<Stats>) -> Option<StatsView> {
    match stats {
        Some(s) => Some(s@),
        None => None,
    }
}

impl Stats {
    #[verifier::type_invariant]
    spec fn inv(self) -> bool {
        &&& self.count >= 1
        &&& self.best <= self.worst
        &&& self.sum <= self.count * u64::MAX
    }

    /// The least measured latency, in milliseconds.
    pub fn best(&self) -> (ms: u64)
        ensures
            ms == self@.best,
    {
        self.best
    }

    /// The greatest measured latency, in milliseconds.
    pub fn worst(&self) -> (ms: u64)
        ensures
            ms == self@.worst,
    {
        self.worst
    }

    /// The sum of the measured latencies, in milliseconds.
    pub fn sum(&self) -> (ms: u128)
        ensures
            ms == self@.sum,
    {
        self.sum
    }

    /// The number of measured latencies: at least one.
    pub fn count(&self) -> (n: u64)
        ensures
            n == self@.count,
            n >= 1,
    {
        proof {
            use_type_invariant(self);
        }
        self.count
    }

    /// The average latency in hundredths of a millisecond, rounded to the
    /// nearest.
    pub fn average_hundredths(&self) -> (hundredths: u128)
        ensures
            hundredths == self@.average_hundredths(),
    {
        proof {
            use_type_invariant(self);
        }
        let count: u128 = self.count as u128;
        let whole: u128 = self.sum / count;
        let rest: u128 = self.sum % count;
        proof {
            let s = self.sum as int;
            let c = count as int;
            lemma_fundamental_div_mod(s, c);
            assert(whole <= u64::MAX) by (nonlinear_arith)
                requires
                    s == c * whole + rest,
                    0 <= rest,
                    s <= c * u64::MAX,
                    c >= 1,
            ;
            assert(200 * rest + c + (100 * whole) * (2 * c) == 200 * s + c) by (nonlinear_arith)
                requires
                    s == c * whole + rest,
            ;
            lemma_hoist_over_denominator(200 * rest + c, 100 * whole, (2 * c) as nat);
        }
        let fraction: u128 = (200 * rest + count) / (2 * count);
        whole * 100 + fraction
    }
}

/// What the statistics become when one more sample arrives: a lost sample
/// changes nothing, a measured one is folded in.
pub open spec fn with_value(current: Option<StatsView>, value: SampleValue) -> Option<StatsView> {
    match value {
        SampleValue::Lost => current,
        SampleValue::Measured(ms) => match current {
            None => Some(StatsView { best: ms, worst: ms, sum: ms as nat, count: 1 }),
            Some(s) => Some(
                StatsView {
                    best: if ms < s.best { ms } else { s.best },
                    worst: if ms > s.worst { ms } else { s.worst },
                    sum: s.sum + ms as nat,
                    count: s.count + 1,
                },
            ),
        },
    }
}

/// Folds one more sample into the statistics, without going through the
/// series again.
pub fn fold_sample(current: Option<Stats>, value: SampleValue) -> (result: Option<Stats>)
    requires
        current matches Some(s) ==> s@.count < u64::MAX,
    ensures
        stats_view(result) == with_value(stats_view(current), value),
{
    match value {
        SampleValue::Lost => current,
        SampleValue::Measured(ms) => match current {
            None => Some(Stats { best: ms, worst: ms, sum: ms as u128, count: 1 }),
            Some(s) => {
                proof {
                    use_type_invariant(&s);
                }
                Some(
                    Stats {
                        best: if ms < s.best { ms } else { s.best },
                        worst: if ms > s.worst { ms } else { s.worst },
                        sum: s.sum + ms as u128,
                        count: s.count + 1,
                    },
                )
            },
        },
    }
}

/// A sequence has at most one least value.
proof fn lemma_least_unique(values: Seq<u64>, a: u64, b: u64)
    requires
        is_least(values, a),
        is_least(values, b),
    ensures
        a == b,
{
    let i = choose|i: int| 0 <= i < values.len() && values[i] == a;
    let j = choose|j: int| 0 <= j < values.len() && values[j] == b;
    assert(b <= values[i]);
    assert(a <= values[j]);
}

/// A sequence has at most one greatest value.
proof fn lemma_greatest_unique(values: Seq<u64>, a: u64, b: u64)
    requires
        is_greatest(values, a),
        is_greatest(values, b),
    ensures
        a == b,
{
    let i = choose|i: int| 0 <= i < values.len() && values[i] == a;
    let j = choose|j: int| 0 <= j < values.len() && values[j] == b;
    assert(b >= values[i]);
    assert(a >= values[j]);
}

/// Computes best, worst and average latency over the samples of `series`
/// that measured one; `None` where none did.
pub fn calculate_ping_stats(series: &[Sample]) -> (result: Option<Stats>)
    ensures
        stats_view(result) == summary(measured(series@)),
{
    let mut best: u64 = u64::MAX;
    let mut worst: u64 = 0;
    let mut sum: u128 = 0;
    let mut count: u64 = 0;
    let mut i: usize = 0;
    while i < series.len()
        invariant
            i <= series.len(),
            count == measured(series@.take(i as int)).len(),
            count <= i,
            sum == total(measured(series@.take(i as int))),
            sum <= count * u64::MAX,
            count > 0 ==> is_least(measured(series@.take(i as int)), best),
            count > 0 ==> is_greatest(measured(series@.take(i as int)), worst),
            count == 0 ==> best == u64::MAX && worst == 0,
        decreases series.len() - i,
    {
        let ghost before = measured(series@.take(i as int));
        assert(series@.take(i + 1).drop_last() == series@.take(i as int));
        let ghost best_before = best;
        let ghost worst_before = worst;
        match series[i].value {
            SampleValue::Measured(ms) => {
                let ghost after = before.push(ms);
                assert(measured(series@.take(i + 1)) == after);
                assert(after.drop_last() == before);
                if ms < best {
                    best = ms;
                }
                if ms > worst {
                    worst = ms;
                }
                sum = sum + ms as u128;
                proof {
                    assert(after[after.len() - 1] == ms);
                    if count > 0 {
                        let kb = choose|k: int| 0 <= k < before.len() && before[k] == best_before;
                        assert(after[kb] == best_before);
                        let kw = choose|k: int| 0 <= k < before.len() && before[k] == worst_before;
                        assert(after[kw] == worst_before);
                    }
                    assert(after.contains(best));
                    assert(after.contains(worst));
                    assert forall|k: int| 0 <= k < after.len() implies best <= #[trigger] after[k]
                        && worst >= after[k] by {
                        if k < before.len() {
                            assert(after[k] == before[k]);
                        }
                    }
                }
                count = count + 1;
            },
            SampleValue::Lost => {
                assert(measured(series@.take(i + 1)) == before);
            },
        }
        i = i + 1;
    }
    assert(series@.take(i as int) == series@);
    if count == 0 {
        None
    } else {
        proof {
            let values = measured(series@);
            lemma_least_unique(values, best, least(values));
            lemma_greatest_unique(values, worst, greatest(values));
        }
        Some(Stats { best, worst, sum, count })
    }
}

/// A sequence that is not empty has a least and a greatest value, and
/// `least` and `greatest` name them.
pub proof fn lemma_least_and_greatest(values: Seq<u64>)
    requires
        values.len() > 0,
    ensures
        is_least(values, least(values)),
        is_greatest(values, greatest(values)),
        least(values) <= greatest(values),
    decreases values.len(),
{
    let x = values.last();
    let earlier = values.drop_last();
    assert(values[values.len() - 1] == x);
    if earlier.len() == 0 {
        assert(is_least(values, x));
        assert(is_greatest(values, x));
    } else {
        lemma_least_and_greatest(earlier);
        let lo = least(earlier);
        let hi = greatest(earlier);
        let klo = choose|k: int| 0 <= k < earlier.len() && earlier[k] == lo;
        let khi = choose|k: int| 0 <= k < earlier.len() && earlier[k] == hi;
        assert(values[klo] == lo);
        assert(values[khi] == hi);
        let m = if x < lo { x } else { lo };
        let g = if x > hi { x } else { hi };
        assert forall|k: int| 0 <= k < values.len() implies m <= #[trigger] values[k] && g
            >= values[k] by {
            if k < earlier.len() {
                assert(values[k] == earlier[k]);
            }
        }
        assert(is_least(values, m));
        assert(is_greatest(values, g));
    }
}

/// Taking one value out of a sequence takes that value off its sum.
pub proof fn lemma_total_remove(values: Seq<u64>, j: int)
    requires
        0 <= j < values.len(),
    ensures
        total(values) == total(values.remove(j)) + values[j],
    decreases values.len(),
{
    if j == values.len() - 1 {
        assert(values.remove(j) == values.drop_last());
    } else {
        lemma_total_remove(values.drop_last(), j);
        assert(values.drop_last().remove(j) == values.remove(j).drop_last());
        assert(values.remove(j).last() == values.last());
    }
}

/// The sum does not depend on the order of the values.
pub proof fn lemma_total_ignores_order(a: Seq<u64>, b: Seq<u64>)
    requires
        a.to_multiset() == b.to_multiset(),
    ensures
        total(a) == total(b),
    decreases a.len(),
{
    a.to_multiset_ensures();
    b.to_multiset_ensures();
    if a.len() > 0 {
        let x = a.last();
        let earlier = a.drop_last();
        assert(a[a.len() - 1] == x);
        assert(a.contains(x));
        assert(a.to_multiset().count(x) > 0);
        assert(b.to_multiset().count(x) > 0);
        assert(b.contains(x));
        let j = choose|j: int| 0 <= j < b.len() && b[j] == x;
        assert(a.remove(a.len() - 1) == earlier);
        assert(earlier.to_multiset() == b.remove(j).to_multiset());
        lemma_total_ignores_order(earlier, b.remove(j));
        lemma_total_remove(b, j);
    }
}

/// The statistics of a series do not depend on the order in which the
/// values arrived: two sequences that hold the same values the same number
/// of times have the same best, worst, sum and count, hence the same
/// average.
pub proof fn lemma_summary_ignores_order(a: Seq<u64>, b: Seq<u64>)
    requires
        a.to_multiset() == b.to_multiset(),
    ensures
        summary(a) == summary(b),
{
    a.to_multiset_ensures();
    b.to_multiset_ensures();
    lemma_total_ignores_order(a, b);
    if a.len() > 0 {
        lemma_least_and_greatest(a);
        lemma_least_and_greatest(b);
        let lo = least(a);
        let hi = greatest(a);
        assert(a.to_multiset().count(lo) > 0 && a.to_multiset().count(hi) > 0);
        assert(b.to_multiset().count(lo) > 0 && b.to_multiset().count(hi) > 0);
        assert(b.contains(lo));
        assert(b.contains(hi));
        assert forall|k: int| 0 <= k < b.len() implies lo <= #[trigger] b[k] && hi >= b[k] by {
            assert(b.contains(b[k]));
            assert(b.to_multiset().count(b[k]) > 0);
            assert(a.to_multiset().count(b[k]) > 0);
            assert(a.contains(b[k]));
            let ka = choose|ka: int| 0 <= ka < a.len() && a[ka] == b[k];
            assert(lo <= a[ka] <= hi);
        }
        lemma_least_unique(b, lo, least(b));
        lemma_greatest_unique(b, hi, greatest(b));
    }
}

/// A lost sample has no part in the statistics: the series without it has
/// the same measured values, hence the same best, worst and average.
pub proof fn lemma_lost_sample_ignored(series: Seq<Sample>, i: int)
    requires
        0 <= i < series.len(),
        series[i].value is Lost,
    ensures
        measured(series.remove(i)) == measured(series),
        summary(measured(series.remove(i))) == summary(measured(series)),
    decreases series.len(),
{
    if i == series.len() - 1 {
        assert(series.remove(i) == series.drop_last());
    } else {
        lemma_lost_sample_ignored(series.drop_last(), i);
        assert(series.drop_last().remove(i) == series.remove(i).drop_last());
        assert(series.remove(i).last() == series.last());
    }
}

/// One more sample adds its latency to the measured values if it has one,
/// and nothing if it is lost.
pub proof fn lemma_measured_push(series: Seq<Sample>, sample: Sample)
    ensures
        measured(series.push(sample)) == match sample.value {
            SampleValue::Measured(ms) => measured(series).push(ms),
            SampleValue::Lost => measured(series),
        },
        measured(series.push(sample)).len() <= series.len() + 1,
        measured(series).len() <= series.len(),
{
    assert(series.push(sample).drop_last() == series);
    lemma_measured_len(series);
}

/// No more values were measured than there are samples.
pub proof fn lemma_measured_len(series: Seq<Sample>)
    ensures
        measured(series).len() <= series.len(),
    decreases series.len(),
{
    if series.len() > 0 {
        lemma_measured_len(series.drop_last());
    }
}

/// Folding a sample into the statistics of a series gives the statistics
/// of the series with that sample: computing step by step and computing
/// anew agree.
pub proof fn lemma_fold_matches_recomputation(series: Seq<Sample>, sample: Sample)
    ensures
        with_value(summary(measured(series)), sample.value) == summary(
            measured(series.push(sample)),
        ),
{
    lemma_measured_push(series, sample);
    match sample.value {
        SampleValue::Lost => {},
        SampleValue::Measured(ms) => {
            let before = measured(series);
            let after = before.push(ms);
            assert(after.drop_last() == before);
            assert(after[after.len() - 1] == ms);
            lemma_least_and_greatest(after);
            if before.len() == 0 {
                lemma_least_unique(after, ms, least(after));
                lemma_greatest_unique(after, ms, greatest(after));
            } else {
                lemma_least_and_greatest(before);
                let lo = least(before);
                let hi = greatest(before);
                let klo = choose|k: int| 0 <= k < before.len() && before[k] == lo;
                let khi = choose|k: int| 0 <= k < before.len() && before[k] == hi;
                assert(after[klo] == lo);
                assert(after[khi] == hi);
                let m = if ms < lo { ms } else { lo };
                let g = if ms > hi { ms } else { hi };
                assert forall|k: int| 0 <= k < after.len() implies m <= #[trigger] after[k] && g
                    >= after[k] by {
                    if k < before.len() {
                        assert(after[k] == before[k]);
                    }
                }
                lemma_least_unique(after, m, least(after));
                lemma_greatest_unique(after, g, greatest(after));
            }
        },
    }
}

/// The statistics are determined by the series: two results for the same
/// series are equal field for field.
pub proof fn lemma_stats_determined(
    series: Seq<Sample>,
    first: Option<Stats>,
    second: Option<Stats>,
)
    requires
        stats_view(first) == summary(measured(series)),
        stats_view(second) == summary(measured(series)),
    ensures
        first == second,
{
}

/// The sum of values that all lie between `lo` and `hi` lies between that
/// many times `lo` and that many times `hi`.
pub proof fn lemma_total_bounds(values: Seq<u64>, lo: u64, hi: u64)
    requires
        forall|i: int| 0 <= i < values.len() ==> lo <= #[trigger] values[i] <= hi,
    ensures
        lo * values.len() <= total(values) <= hi * values.len(),
    decreases values.len(),
{
    if values.len() > 0 {
        let earlier = values.drop_last();
        let n = earlier.len() as int;
        assert forall|i: int| 0 <= i < earlier.len() implies lo <= #[trigger] earlier[i]
            <= hi by {
            assert(earlier[i] == values[i]);
        }
        lemma_total_bounds(earlier, lo, hi);
        assert(lo <= values[values.len() - 1] <= hi);
        assert(lo * (n + 1) == lo * n + lo && hi * (n + 1) == hi * n + hi) by (nonlinear_arith);
    }
}

/// The average written in hundredths is the hundredth nearest to
/// `sum / count`, and it lies between the best and the worst latency.
pub proof fn lemma_average_of_summary(values: Seq<u64>)
    requires
        values.len() > 0,
    ensures
        summary(values) matches Some(s) && {
            let h = s.average_hundredths();
            &&& 200 * s.sum - s.count < 2 * h * s.count <= 200 * s.sum + s.count
            &&& 100 * s.best <= h <= 100 * s.worst
        },
{
    let s = summary(values)->0;
    let h = s.average_hundredths() as int;
    let sum = s.sum as int;
    let count = s.count as int;
    let best = s.best as int;
    let worst = s.worst as int;
    lemma_least_and_greatest(values);
    lemma_total_bounds(values, s.best, s.worst);
    lemma_fundamental_div_mod(200 * sum + count, 2 * count);
    assert(200 * sum - count < 2 * h * count <= 200 * sum + count) by (nonlinear_arith)
        requires
            count > 0,
            200 * sum + count == (2 * count) * h + (200 * sum + count) % (2 * count),
            0 <= (200 * sum + count) % (2 * count) < 2 * count,
    ;
    assert(100 * best <= h <= 100 * worst) by (nonlinear_arith)
        requires
            count > 0,
            200 * sum - count < 2 * h * count <= 200 * sum + count,
            best * count <= sum <= worst * count,
    ;
}

} // verus!
