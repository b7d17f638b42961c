//! The consumer's side: the series of samples since the last reset, the
//! loss counters, and the statistics kept up to date with both.

use vstd::prelude::*;
use crate::outcome::{outcome_values, ProbeOutcome, Sample, SampleValue};
use crate::stats::{
    fold_sample, lemma_fold_matches_recomputation, lemma_measured_push, lost_in, measured,
    stats_view, summary, Stats,
};

verus! {

/// Every sample of `series` carries its own position: the indices start at
/// 0 and go up by one from each sample to the next.
pub open spec fn gapless(series: Seq<Sample>) -> bool {
    forall|i: int| 0 <= i < series.len() ==> (#[trigger] series[i]).sequence_index == i
}

/// `series` with one more sample for each of `values`, numbered onwards
/// from the length of `series`.
pub open spec fn extended(series: Seq<Sample>, values: Seq<SampleValue>) -> Seq<Sample> {
    series + Seq::new(
        values.len(),
        |k: int| Sample { sequence_index: (series.len() + k) as u64, value: values[k] },
    )
}

/// In a gapless series the first index is 0 and each index is one more than
/// the index before it.
pub proof fn lemma_gapless_steps(series: Seq<Sample>)
    requires
        gapless(series),
    ensures
        series.len() > 0 ==> series[0].sequence_index == 0,
        forall|i: int|
            0 < i < series.len() ==> (#[trigger] series[i]).sequence_index == series[i
                - 1].sequence_index + 1,
{
}

/// The ordered samples since the last reset.
#[derive(Debug)]
pub struct SeriesBuffer {
    samples: Vec<Sample>,
}

impl View for SeriesBuffer {
    type V = Seq<Sample>;

    closed spec fn view(&self) -> Seq<Sample> {
        self.samples@
    }
}

impl SeriesBuffer {
    #[verifier::type_invariant]
    spec fn inv(self) -> bool {
        gapless(self.samples@)
    }

    /// An empty series.
    pub fn new() -> (series: Self)
        ensures
            series@ == Seq::<Sample>::empty(),
    {
        SeriesBuffer { samples: Vec::new() }
    }

    /// The number of samples.
    pub fn len(&self) -> (n: usize)
        ensures
            n == self@.len(),
    {
        self.samples.len()
    }

    /// Appends a sample with the next index and hands it back.
    pub fn append(&mut self, value: SampleValue) -> (sample: Sample)
        ensures
            sample.sequence_index == old(self)@.len(),
            sample.value == value,
            final(self)@ == old(self)@.push(sample),
            gapless(final(self)@),
    {
        proof {
            use_type_invariant(&*self);
        }
        let mut samples: Vec<Sample> = Vec::new();
        core::mem::swap(&mut self.samples, &mut samples);
        let sample = Sample { sequence_index: samples.len() as u64, value };
        samples.push(sample);
        self.samples = samples;
        sample
    }

    /// Drops every sample: the next one gets index 0 again.
    pub fn clear(&mut self)
        ensures
            final(self)@ == Seq::<Sample>::empty(),
    {
        self.samples = Vec::new();
    }

    /// The samples in order.
    pub fn as_slice(&self) -> (samples: &[Sample])
        ensures
            samples@ == self@,
            gapless(self@),
    {
        proof {
            use_type_invariant(self);
        }
        self.samples.as_slice()
    }

    /// The sample at position `index`, if the series is that long.
    pub fn get(&self, index: usize) -> (sample: Option<Sample>)
        ensures
            sample == if index < self@.len() {
                Some(self@[index as int])
            } else {
                None
            },
            sample matches Some(s) ==> s.sequence_index == index,
    {
        proof {
            use_type_invariant(self);
        }
        if index < self.samples.len() {
            Some(self.samples[index])
        } else {
            None
        }
    }
}

impl Default for SeriesBuffer {
    fn default() -> (value: Self)
        ensures
            value@ == Seq::<Sample>::empty(),
    {
        SeriesBuffer::new()
    }
}

/// The mathematical value of a [`LossCounters`].
pub struct LossCountersView {
    /// The number of cycles counted.
    pub total_attempts: nat,
    /// The number of them that were lost.
    pub lost_count: nat,
}

impl LossCountersView {
    /// The share of lost cycles in percent, rounded down: 0 where nothing
    /// was counted.
    pub open spec fn loss_percent(self) -> nat {
        if self.total_attempts == 0 {
            0
        } else {
            ((100 * self.lost_count) as int / self.total_attempts as int) as nat
        }
    }

    /// The share of lost cycles in tenths of a percent, rounded to the
    /// nearest, a half upwards: 0 where nothing was counted.
    pub open spec fn loss_tenths(self) -> nat {
        if self.total_attempts == 0 {
            0
        } else {
            ((2000 * self.lost_count + self.total_attempts) as int / (2
                * self.total_attempts) as int) as nat
        }
    }
}

/// The loss counters of a series: how many cycles there were, and how many
/// of them were lost.
pub open spec fn counters_of(series: Seq<Sample>) -> LossCountersView {
    LossCountersView { total_attempts: series.len(), lost_count: lost_in(series) }
}

/// One more sample counts as one more attempt, and as one more loss exactly
/// if it is lost.
pub proof fn lemma_counters_step(series: Seq<Sample>, sample: Sample)
    ensures
        counters_of(series.push(sample)).total_attempts == counters_of(series).total_attempts + 1,
        counters_of(series.push(sample)).lost_count == counters_of(series).lost_count
            + if sample.value is Lost {
            1nat
        } else {
            0nat
        },
        counters_of(series).lost_count <= counters_of(series).total_attempts,
{
    lemma_measured_push(series, sample);
}

/// After a reset nothing is left: the empty series has no statistics and
/// zero counters, and the first sample that follows gets index 0.
pub proof fn lemma_reset_starts_anew(values: Seq<SampleValue>)
    ensures
        gapless(Seq::<Sample>::empty()),
        summary(measured(Seq::<Sample>::empty())) is None,
        counters_of(Seq::<Sample>::empty()) == (LossCountersView {
            total_attempts: 0,
            lost_count: 0,
        }),
        values.len() > 0 ==> extended(Seq::<Sample>::empty(), values)[0].sequence_index == 0,
{
}

/// How many cycles were attempted and how many of them were lost.
#[derive(Clone, Copy, Debug)]
pub struct LossCounters {
    total_attempts: u64,
    lost_count: u64,
}

impl View for LossCounters {
    type V = LossCountersView;

    closed spec fn view(&self) -> LossCountersView {
        LossCountersView {
            total_attempts: self.total_attempts as nat,
            lost_count: self.lost_count as nat,
        }
    }
}

impl LossCounters {
    #[verifier::type_invariant]
    spec fn inv(self) -> bool {
        self.lost_count <= self.total_attempts
    }

    /// Counters that have counted nothing.
    pub fn new() -> (counters: Self)
        ensures
            counters@ == (LossCountersView { total_attempts: 0, lost_count: 0 }),
    {
        LossCounters { total_attempts: 0, lost_count: 0 }
    }

    /// The number of cycles counted.
    pub fn total_attempts(&self) -> (n: u64)
        ensures
            n == self@.total_attempts,
    {
        self.total_attempts
    }

    /// The number of lost cycles counted: never more than the attempts.
    pub fn lost_count(&self) -> (n: u64)
        ensures
            n == self@.lost_count,
            n <= self@.total_attempts,
    {
        proof {
            use_type_invariant(self);
        }
        self.lost_count
    }

    /// The counters after one more cycle, lost or not.
    pub fn counted(self, lost: bool) -> (counters: Self)
        requires
            self@.total_attempts < u64::MAX,
        ensures
            counters@.total_attempts == self@.total_attempts + 1,
            counters@.lost_count == self@.lost_count + if lost { 1nat } else { 0nat },
    {
        proof {
            use_type_invariant(&self);
        }
        LossCounters {
            total_attempts: self.total_attempts + 1,
            lost_count: if lost {
                self.lost_count + 1
            } else {
                self.lost_count
            },
        }
    }

    /// The share of lost cycles in percent, rounded down.
    pub fn loss_percent(&self) -> (percent: u64)
        ensures
            percent == self@.loss_percent(),
            percent <= 100,
    {
        proof {
            use_type_invariant(self);
        }
        if self.total_attempts == 0 {
            0
        } else {
            let lost: u128 = self.lost_count as u128;
            let total: u128 = self.total_attempts as u128;
            assert((100 * lost) as int / total as int <= 100) by (nonlinear_arith)
                requires
                    0 <= lost <= total,
                    total > 0,
            ;
            (100 * lost / total) as u64
        }
    }

    /// The share of lost cycles in tenths of a percent, rounded to the
    /// nearest.
    pub fn loss_tenths(&self) -> (tenths: u64)
        ensures
            tenths == self@.loss_tenths(),
            tenths <= 1000,
    {
        proof {
            use_type_invariant(self);
        }
        if self.total_attempts == 0 {
            0
        } else {
            let lost: u128 = self.lost_count as u128;
            let total: u128 = self.total_attempts as u128;
            assert((2000 * lost + total) as int / (2 * total) as int <= 1000) by (nonlinear_arith)
                requires
                    0 <= lost <= total,
                    total > 0,
            ;
            ((2000 * lost + total) / (2 * total)) as u64
        }
    }
}

impl Default for LossCounters {
    fn default() -> (value: Self)
        ensures
            value@ == (LossCountersView { total_attempts: 0, lost_count: 0 }),
    {
        LossCounters::new()
    }
}

/// What the consumer keeps: the series, its loss counters and its
/// statistics. The counters and the statistics always belong to the series
/// as it stands.
#[derive(Debug)]
pub struct Monitor {
    series: SeriesBuffer,
    counters: LossCounters,
    stats: Option<Stats>,
}

impl View for Monitor {
    type V = Seq<Sample>;

    closed spec fn view(&self) -> Seq<Sample> {
        self.series@
    }
}

impl Monitor {
    #[verifier::type_invariant]
    spec fn inv(self) -> bool {
        &&& self.counters@ == counters_of(self.series@)
        &&& stats_view(self.stats) == summary(measured(self.series@))
    }

    /// A monitor that has seen no sample.
    pub fn new() -> (monitor: Self)
        ensures
            monitor@ == Seq::<Sample>::empty(),
    {
        Monitor { series: SeriesBuffer::new(), counters: LossCounters::new(), stats: None }
    }

    /// Takes in the outcome of one cycle: appends one sample with the next
    /// index, counts the attempt, counts the loss if it is one, and brings
    /// the statistics up to date.
    pub fn record(&mut self, outcome: &ProbeOutcome) -> (sample: Sample)
        ensures
            sample.sequence_index == old(self)@.len(),
            sample.value == outcome@.sample_value(),
            final(self)@ == old(self)@.push(sample),
            gapless(final(self)@),
    {
        let mut taken = Monitor::new();
        core::mem::swap(self, &mut taken);
        proof {
            use_type_invariant(&taken);
        }
        let Monitor { series, counters, stats } = taken;
        let ghost before = series@;
        let mut series = series;
        let value = outcome.sample_value();
        let sample = series.append(value);
        // A length fits `usize`, hence `u64`: the counters have room for
        // one more.
        let filled: usize = series.len();
        proof {
            assert(before.len() < filled);
            lemma_measured_push(before, sample);
            lemma_fold_matches_recomputation(before, sample);
        }
        let lost = match value {
            SampleValue::Lost => true,
            SampleValue::Measured(_) => false,
        };
        let counters = counters.counted(lost);
        let stats = fold_sample(stats, value);
        *self = Monitor { series, counters, stats };
        sample
    }

    /// Takes in the drained outcomes in their order, one sample each.
    pub fn absorb(&mut self, outcomes: &[ProbeOutcome])
        ensures
            final(self)@ == extended(old(self)@, outcome_values(outcomes@)),
            gapless(final(self)@),
    {
        let ghost start = self@;
        let ghost values = outcome_values(outcomes@);
        proof {
            use_type_invariant(&*self);
            use_type_invariant(&self.series);
        }
        assert(self@ =~= extended(start, values.take(0)));
        let mut i: usize = 0;
        while i < outcomes.len()
            invariant
                i <= outcomes.len(),
                values == outcome_values(outcomes@),
                self@ == extended(start, values.take(i as int)),
                gapless(self@),
            decreases outcomes.len() - i,
        {
            let sample = self.record(&outcomes[i]);
            assert(self@ =~= extended(start, values.take(i + 1)));
            i = i + 1;
        }
        assert(values.take(i as int) == values);
    }

    /// Forgets every sample: the series is empty, the counters are zero and
    /// there are no statistics, and the next sample gets index 0.
    pub fn reset(&mut self)
        ensures
            final(self)@ == Seq::<Sample>::empty(),
    {
        *self = Monitor::new();
    }

    /// The series.
    pub fn series(&self) -> (series: &SeriesBuffer)
        ensures
            series@ == self@,
            gapless(self@),
    {
        proof {
            use_type_invariant(self);
            use_type_invariant(&self.series);
        }
        &self.series
    }

    /// The number of samples since the last reset.
    pub fn len(&self) -> (n: usize)
        ensures
            n == self@.len(),
    {
        self.series.len()
    }

    /// The loss counters of the series.
    pub fn counters(&self) -> (counters: LossCounters)
        ensures
            counters@ == counters_of(self@),
    {
        proof {
            use_type_invariant(self);
        }
        self.counters
    }

    /// The statistics of the series: none while no sample measured a
    /// latency.
    pub fn stats(&self) -> (stats: Option<Stats>)
        ensures
            stats_view(stats) == summary(measured(self@)),
    {
        proof {
            use_type_invariant(self);
        }
        self.stats
    }
}

impl Default for Monitor {
    fn default() -> (value: Self)
        ensures
            value@ == Seq::<Sample>::empty(),
    {
        Monitor::new()
    }
}

} // verus!
