//! The values that one sampling cycle produces.

use vstd::prelude::*;

verus! {

/// A resolved network endpoint, held as the bits of its address.
#[derive(Clone, Copy, Debug, PartialEq, Eq, Structural)]
pub enum Endpoint {
    /// An IPv4 address, most significant octet first.
    V4(u32),
    /// An IPv6 address, most significant segment first.
    V6(u128),
}

/// Why a sampling cycle failed, with the text shown to the user.
#[derive(Debug, PartialEq, Eq)]
pub enum FailureReason {
    /// The address text is not in a form that can be resolved.
    InvalidAddress(String),
    /// The address text is well formed, but no endpoint was found for it.
    ResolutionFailed(String),
    /// The endpoint did not answer the probe.
    ProbeFailed(String),
}

/// The mathematical value of a [`FailureReason`].
pub enum FailureReasonView {
    InvalidAddress(Seq<char>),
    ResolutionFailed(Seq<char>),
    ProbeFailed(Seq<char>),
}

impl FailureReasonView {
    /// The text carried by the reason.
    pub open spec fn message(self) -> Seq<char> {
        match self {
            FailureReasonView::InvalidAddress(m) => m,
            FailureReasonView::ResolutionFailed(m) => m,
            FailureReasonView::ProbeFailed(m) => m,
        }
    }
}

impl View for FailureReason {
    type V = FailureReasonView;

    open spec fn view(&self) -> FailureReasonView {
        match self {
            FailureReason::InvalidAddress(m) => FailureReasonView::InvalidAddress(m@),
            FailureReason::ResolutionFailed(m) => FailureReasonView::ResolutionFailed(m@),
            FailureReason::ProbeFailed(m) => FailureReasonView::ProbeFailed(m@),
        }
    }
}

impl FailureReason {
    /// The text to show for this failure.
    pub fn message(&self) -> (text: String)
        ensures
            text@ == self@.message(),
    {
        match self {
            FailureReason::InvalidAddress(m) => m.clone(),
            FailureReason::ResolutionFailed(m) => m.clone(),
            FailureReason::ProbeFailed(m) => m.clone(),
        }
    }
}

impl Clone for FailureReason {
    fn clone(&self) -> (copy: Self)
        ensures
            copy@ == self@,
    {
        match self {
            FailureReason::InvalidAddress(m) => FailureReason::InvalidAddress(m.clone()),
            FailureReason::ResolutionFailed(m) => FailureReason::ResolutionFailed(m.clone()),
            FailureReason::ProbeFailed(m) => FailureReason::ProbeFailed(m.clone()),
        }
    }
}

/// What one sampling cycle found out.
#[derive(Debug, PartialEq, Eq)]
pub enum ProbeOutcome {
    /// The endpoint answered after `latency_ms` milliseconds.
    Success { latency_ms: u64 },
    /// The cycle failed at resolution or at the probe.
    Failure { reason: FailureReason },
}

/// The mathematical value of a [`ProbeOutcome`].
pub enum ProbeOutcomeView {
    Success { latency_ms: u64 },
    Failure { reason: FailureReasonView },
}

impl ProbeOutcomeView {
    /// The error text that this outcome leaves for display: empty after a
    /// success, the reason's message after a failure.
    pub open spec fn error_text(self) -> Seq<char> {
        match self {
            ProbeOutcomeView::Success { .. } => Seq::empty(),
            ProbeOutcomeView::Failure { reason } => reason.message(),
        }
    }

    /// The value that this outcome contributes to the series.
    pub open spec fn sample_value(self) -> SampleValue {
        match self {
            ProbeOutcomeView::Success { latency_ms } => SampleValue::Measured(latency_ms),
            ProbeOutcomeView::Failure { .. } => SampleValue::Lost,
        }
    }
}

impl View for ProbeOutcome {
    type V = ProbeOutcomeView;

    open spec fn view(&self) -> ProbeOutcomeView {
        match self {
            ProbeOutcome::Success { latency_ms } => ProbeOutcomeView::Success {
                latency_ms: *latency_ms,
            },
            ProbeOutcome::Failure { reason } => ProbeOutcomeView::Failure { reason: reason@ },
        }
    }
}

impl Clone for ProbeOutcome {
    fn clone(&self) -> (copy: Self)
        ensures
            copy@ == self@,
    {
        match self {
            ProbeOutcome::Success { latency_ms } => ProbeOutcome::Success {
                latency_ms: *latency_ms,
            },
            ProbeOutcome::Failure { reason } => ProbeOutcome::Failure { reason: reason.clone() },
        }
    }
}

impl ProbeOutcome {
    /// Whether the cycle measured a latency.
    pub fn is_success(&self) -> (yes: bool)
        ensures
            yes == (self@ is Success),
    {
        match self {
            ProbeOutcome::Success { .. } => true,
            ProbeOutcome::Failure { .. } => false,
        }
    }

    /// The error text that this outcome leaves for display.
    pub fn error_text(&self) -> (text: String)
        ensures
            text@ == self@.error_text(),
    {
        match self {
            ProbeOutcome::Success { .. } => String::new(),
            ProbeOutcome::Failure { reason } => reason.message(),
        }
    }

    /// The value that this outcome contributes to the series.
    pub fn sample_value(&self) -> (value: SampleValue)
        ensures
            value == self@.sample_value(),
    {
        match self {
            ProbeOutcome::Success { latency_ms } => SampleValue::Measured(*latency_ms),
            ProbeOutcome::Failure { .. } => SampleValue::Lost,
        }
    }
}

/// The value of one sample: a measured latency in milliseconds, or the mark
/// of a cycle that measured none. A lost sample is never a zero latency.
#[derive(Clone, Copy, Debug, PartialEq, Eq, Structural)]
pub enum SampleValue {
    Measured(u64),
    Lost,
}

/// One entry of the series.
#[derive(Clone, Copy, Debug, PartialEq, Eq, Structural)]
pub struct Sample {
    /// The position of the sample in the series since the last reset.
    pub sequence_index: u64,
    pub value: SampleValue,
}

impl Sample {
    /// Whether the sample marks a failed cycle.
    pub fn is_lost(&self) -> (yes: bool)
        ensures
            yes == (self.value is Lost),
    {
        match self.value {
            SampleValue::Lost => true,
            SampleValue::Measured(_) => false,
        }
    }

    /// The measured latency, if there is one.
    pub fn latency_ms(&self) -> (latency: Option<u64>)
        ensures
            latency == match self.value {
                SampleValue::Measured(ms) => Some(ms),
                SampleValue::Lost => None::<u64>,
            },
    {
        match self.value {
            SampleValue::Measured(ms) => Some(ms),
            SampleValue::Lost => None,
        }
    }
}

/// The mathematical values of a run of outcomes, in order.
pub open spec fn outcome_views(outcomes: Seq<ProbeOutcome>) -> Seq<ProbeOutcomeView> {
    Seq::new(outcomes.len(), |k: int| outcomes[k]@)
}

/// The sample values that a run of outcomes contributes, in order.
pub open spec fn outcome_values(outcomes: Seq<ProbeOutcome>) -> Seq<SampleValue> {
    Seq::new(outcomes.len(), |k: int| outcomes[k]@.sample_value())
}

} // verus!
