//! The sampling engine as a state machine. It decides; its driver does the
//! outside work. The driver performs each action that a step hands out and
//! feeds the result back as the next event.

use vstd::prelude::*;
use vstd::string::*;
use crate::address::{
    invalid_address, invalid_address_text, is_resolvable, is_resolvable_form, lookup_view,
    resolve, resolve_spec,
};
use crate::outcome::{
    Endpoint, FailureReason, FailureReasonView, ProbeOutcome, ProbeOutcomeView,
};

verus! {

/// The pause after a cycle that measured a latency, in milliseconds.
pub const SUCCESS_DELAY_MS: u64 = 1000;

/// The pause after a cycle that failed, in milliseconds: longer, so that a
/// target that cannot be reached is tried less often.
pub const FAILURE_DELAY_MS: u64 = 2000;

/// The longest that one probe may take, in milliseconds. The bound keeps
/// the sampler from waiting on a target that never answers.
pub const PROBE_TIMEOUT_MS: u64 = 4000;

/// The pause that follows a cycle.
pub open spec fn pacing_delay_spec(succeeded: bool) -> u64 {
    if succeeded {
        SUCCESS_DELAY_MS
    } else {
        FAILURE_DELAY_MS
    }
}

/// The pause that follows a cycle, in milliseconds. A failure never leads
/// to a shorter pause than a success.
pub fn pacing_delay(succeeded: bool) -> (millis: u64)
    ensures
        millis == pacing_delay_spec(succeeded),
        pacing_delay_spec(false) >= pacing_delay_spec(true),
{
    if succeeded {
        SUCCESS_DELAY_MS
    } else {
        FAILURE_DELAY_MS
    }
}

/// A measured time in whole milliseconds as a latency: a time beyond the
/// range of a latency counts as the greatest latency.
pub fn latency_from_millis(elapsed: u128) -> (latency_ms: u64)
    ensures
        latency_ms == if elapsed > u64::MAX {
            u64::MAX as int
        } else {
            elapsed as int
        },
{
    if elapsed > u64::MAX as u128 {
        u64::MAX
    } else {
        elapsed as u64
    }
}

/// The error text for a probe that failed with `error`.
pub open spec fn probe_failed_text(error: Seq<char>) -> Seq<char> {
    "Ping failed: "@ + error
}

/// The mathematical value of a probe's answer: the elapsed milliseconds, or
/// the error text.
pub open spec fn probe_view(reply: Result<u64, String>) -> Result<u64, Seq<char>> {
    match reply {
        Ok(elapsed_ms) => Ok(elapsed_ms),
        Err(error) => Err(error@),
    }
}

/// The outcome of a cycle whose probe answered `reply`.
pub open spec fn probe_outcome(reply: Result<u64, Seq<char>>) -> ProbeOutcomeView {
    match reply {
        Ok(elapsed_ms) => ProbeOutcomeView::Success { latency_ms: elapsed_ms },
        Err(error) => ProbeOutcomeView::Failure {
            reason: FailureReasonView::ProbeFailed(probe_failed_text(error)),
        },
    }
}

/// Classifies the answer of one probe: the measured time is a success, an
/// error is a `ProbeFailed` that carries the error's text.
pub fn classify_probe(reply: &Result<u64, String>) -> (outcome: ProbeOutcome)
    ensures
        outcome@ == probe_outcome(probe_view(*reply)),
{
    match reply {
        Ok(elapsed_ms) => ProbeOutcome::Success { latency_ms: *elapsed_ms },
        Err(error) => ProbeOutcome::Failure {
            reason: FailureReason::ProbeFailed(
                String::from_str("Ping failed: ").concat(error.as_str()),
            ),
        },
    }
}

/// Where the sampler stands in its cycle.
#[derive(Debug, PartialEq, Eq)]
pub enum SamplerState {
    /// Before the first cycle.
    Idle,
    /// Waiting for the resolver's answer for the address read at the start
    /// of the cycle.
    Resolving { address: String },
    /// Waiting for the probe's answer from the endpoint.
    Probing { endpoint: Endpoint },
    /// Waiting for the outcome to be published.
    Emitting { succeeded: bool },
    /// Pausing before the next cycle.
    Waiting,
}

/// The mathematical value of a [`SamplerState`].
pub enum SamplerStateView {
    Idle,
    Resolving { address: Seq<char> },
    Probing { endpoint: Endpoint },
    Emitting { succeeded: bool },
    Waiting,
}

impl View for SamplerState {
    type V = SamplerStateView;

    open spec fn view(&self) -> SamplerStateView {
        match self {
            SamplerState::Idle => SamplerStateView::Idle,
            SamplerState::Resolving { address } => SamplerStateView::Resolving {
                address: address@,
            },
            SamplerState::Probing { endpoint } => SamplerStateView::Probing {
                endpoint: *endpoint,
            },
            SamplerState::Emitting { succeeded } => SamplerStateView::Emitting {
                succeeded: *succeeded,
            },
            SamplerState::Waiting => SamplerStateView::Waiting,
        }
    }
}

/// What the driver reports back to the sampler.
#[derive(Debug, PartialEq, Eq)]
pub enum SamplerEvent {
    /// A cycle begins: `address` is the target address as it was read just
    /// now. The whole cycle works on this copy.
    Wake { address: String },
    /// The resolver answered: the endpoints in its order, or its error.
    Resolved { answer: Result<Vec<Endpoint>, String> },
    /// The probe answered: the elapsed milliseconds, or its error.
    Probed { reply: Result<u64, String> },
    /// The outcome was published.
    Emitted,
}

/// The mathematical value of a [`SamplerEvent`].
pub enum SamplerEventView {
    Wake { address: Seq<char> },
    Resolved { answer: Result<Seq<Endpoint>, Seq<char>> },
    Probed { reply: Result<u64, Seq<char>> },
    Emitted,
}

impl View for SamplerEvent {
    type V = SamplerEventView;

    open spec fn view(&self) -> SamplerEventView {
        match self {
            SamplerEvent::Wake { address } => SamplerEventView::Wake { address: address@ },
            SamplerEvent::Resolved { answer } => SamplerEventView::Resolved {
                answer: lookup_view(*answer),
            },
            SamplerEvent::Probed { reply } => SamplerEventView::Probed {
                reply: probe_view(*reply),
            },
            SamplerEvent::Emitted => SamplerEventView::Emitted,
        }
    }
}

/// What the sampler asks its driver to do next.
#[derive(Debug, PartialEq, Eq)]
pub enum SamplerAction {
    /// Ask the system's resolver for the endpoints of `address`.
    Resolve { address: String },
    /// Probe `endpoint` once, giving up after `timeout_ms` milliseconds, and
    /// time the probe alone: the lookup before it is no part of the
    /// latency.
    Probe { endpoint: Endpoint, timeout_ms: u64 },
    /// Publish `outcome`: leave its error text in the shared state and send
    /// it to the feed.
    Emit { outcome: ProbeOutcome },
    /// Pause for `millis` milliseconds, then read the address and wake the
    /// sampler.
    Wait { millis: u64 },
}

/// The mathematical value of a [`SamplerAction`].
pub enum SamplerActionView {
    Resolve { address: Seq<char> },
    Probe { endpoint: Endpoint, timeout_ms: u64 },
    Emit { outcome: ProbeOutcomeView },
    Wait { millis: u64 },
}

impl View for SamplerAction {
    type V = SamplerActionView;

    open spec fn view(&self) -> SamplerActionView {
        match self {
            SamplerAction::Resolve { address } => SamplerActionView::Resolve {
                address: address@,
            },
            SamplerAction::Probe { endpoint, timeout_ms } => SamplerActionView::Probe {
                endpoint: *endpoint,
                timeout_ms: *timeout_ms,
            },
            SamplerAction::Emit { outcome } => SamplerActionView::Emit { outcome: outcome@ },
            SamplerAction::Wait { millis } => SamplerActionView::Wait { millis: *millis },
        }
    }
}

/// The step that a cycle begins with: an address in a resolvable form goes
/// to the resolver, any other fails the cycle at once.
pub open spec fn begin_cycle(address: Seq<char>) -> (SamplerStateView, SamplerActionView) {
    if is_resolvable_form(address) {
        (SamplerStateView::Resolving { address }, SamplerActionView::Resolve { address })
    } else {
        (
            SamplerStateView::Emitting { succeeded: false },
            SamplerActionView::Emit {
                outcome: ProbeOutcomeView::Failure {
                    reason: FailureReasonView::InvalidAddress(invalid_address_text(address)),
                },
            },
        )
    }
}

/// The sampler's transition: the state and the action that follow when
/// `event` arrives in `state`, or `None` where the state does not wait for
/// that event.
pub open spec fn step_spec(state: SamplerStateView, event: SamplerEventView) -> Option<
    (SamplerStateView, SamplerActionView),
> {
    match (state, event) {
        (SamplerStateView::Idle, SamplerEventView::Wake { address }) => Some(
            begin_cycle(address),
        ),
        (SamplerStateView::Waiting, SamplerEventView::Wake { address }) => Some(
            begin_cycle(address),
        ),
        (SamplerStateView::Resolving { address }, SamplerEventView::Resolved { answer }) => {
            match resolve_spec(address, answer) {
                Ok(endpoint) => Some(
                    (
                        SamplerStateView::Probing { endpoint },
                        SamplerActionView::Probe { endpoint, timeout_ms: PROBE_TIMEOUT_MS },
                    ),
                ),
                Err(reason) => Some(
                    (
                        SamplerStateView::Emitting { succeeded: false },
                        SamplerActionView::Emit { outcome: ProbeOutcomeView::Failure { reason } },
                    ),
                ),
            }
        },
        (SamplerStateView::Probing { .. }, SamplerEventView::Probed { reply }) => Some(
            (
                SamplerStateView::Emitting { succeeded: reply is Ok },
                SamplerActionView::Emit { outcome: probe_outcome(reply) },
            ),
        ),
        (SamplerStateView::Emitting { succeeded }, SamplerEventView::Emitted) => Some(
            (
                SamplerStateView::Waiting,
                SamplerActionView::Wait { millis: pacing_delay_spec(succeeded) },
            ),
        ),
        _ => None,
    }
}

fn begin(address: String) -> (next: (SamplerState, SamplerAction))
    ensures
        (next.0@, next.1@) == begin_cycle(address@),
{
    if is_resolvable(address.as_str()) {
        let copy = address.clone();
        (SamplerState::Resolving { address }, SamplerAction::Resolve { address: copy })
    } else {
        let reason = invalid_address(address.as_str());
        (
            SamplerState::Emitting { succeeded: false },
            SamplerAction::Emit { outcome: ProbeOutcome::Failure { reason } },
        )
    }
}

impl SamplerState {
    /// The state before the first cycle.
    pub fn new() -> (state: Self)
        ensures
            state@ == SamplerStateView::Idle,
    {
        SamplerState::Idle
    }

    /// Takes `event` in this state. Where the state waits for that event,
    /// hands back the next state and the action to perform; where it does
    /// not, hands back the state as it was and no action.
    pub fn step(self, event: SamplerEvent) -> (next: (SamplerState, Option<SamplerAction>))
        ensures
            match step_spec(self@, event@) {
                Some((state, action)) => next.0@ == state && (next.1 matches Some(a) && a@
                    == action),
                None => next.0@ == self@ && next.1 is None,
            },
    {
        match (self, event) {
            (SamplerState::Idle, SamplerEvent::Wake { address }) => {
                let (state, action) = begin(address);
                (state, Some(action))
            },
            (SamplerState::Waiting, SamplerEvent::Wake { address }) => {
                let (state, action) = begin(address);
                (state, Some(action))
            },
            (SamplerState::Resolving { address }, SamplerEvent::Resolved { answer }) => {
                match resolve(address.as_str(), &answer) {
                    Ok(endpoint) => (
                        SamplerState::Probing { endpoint },
                        Some(SamplerAction::Probe { endpoint, timeout_ms: PROBE_TIMEOUT_MS }),
                    ),
                    Err(reason) => (
                        SamplerState::Emitting { succeeded: false },
                        Some(SamplerAction::Emit { outcome: ProbeOutcome::Failure { reason } }),
                    ),
                }
            },
            (SamplerState::Probing { .. }, SamplerEvent::Probed { reply }) => {
                let outcome = classify_probe(&reply);
                let succeeded = outcome.is_success();
                (SamplerState::Emitting { succeeded }, Some(SamplerAction::Emit { outcome }))
            },
            (SamplerState::Emitting { succeeded }, SamplerEvent::Emitted) => {
                (
                    SamplerState::Waiting,
                    Some(SamplerAction::Wait { millis: pacing_delay(succeeded) }),
                )
            },
            (state, _) => (state, None),
        }
    }
}

impl Default for SamplerState {
    fn default() -> (value: Self)
        ensures
            value@ == SamplerStateView::Idle,
    {
        SamplerState::new()
    }
}

/// The state that a run of events leads to from `state`, and the actions
/// that it hands out on the way. An event that the state does not wait for
/// changes nothing.
pub open spec fn run(state: SamplerStateView, events: Seq<SamplerEventView>) -> (
    SamplerStateView,
    Seq<SamplerActionView>,
)
    decreases events.len(),
{
    if events.len() == 0 {
        (state, Seq::empty())
    } else {
        let (reached, actions) = run(state, events.drop_last());
        match step_spec(reached, events.last()) {
            Some((next, action)) => (next, actions.push(action)),
            None => (reached, actions),
        }
    }
}

/// The number of outcomes that `actions` publish.
pub open spec fn emissions(actions: Seq<SamplerActionView>) -> nat
    decreases actions.len(),
{
    if actions.len() == 0 {
        0
    } else {
        emissions(actions.drop_last()) + if actions.last() is Emit {
            1nat
        } else {
            0nat
        }
    }
}

/// The number of pauses in `actions`: each closes one cycle.
pub open spec fn pauses(actions: Seq<SamplerActionView>) -> nat
    decreases actions.len(),
{
    if actions.len() == 0 {
        0
    } else {
        pauses(actions.drop_last()) + if actions.last() is Wait {
            1nat
        } else {
            0nat
        }
    }
}

/// Every cycle publishes exactly one outcome, whatever happens in it. In
/// any run of events from any state, the outcomes published and the cycles
/// closed by a pause go together one to one: they are equally many, but for
/// an outcome that was published before the run and is confirmed in it, and
/// for one that is published in the run and not yet confirmed.
pub proof fn lemma_one_emission_per_cycle(state: SamplerStateView, events: Seq<SamplerEventView>)
    ensures
        emissions(run(state, events).1) + if state is Emitting {
            1nat
        } else {
            0nat
        } == pauses(run(state, events).1) + if run(state, events).0 is Emitting {
            1nat
        } else {
            0nat
        },
    decreases events.len(),
{
    if events.len() > 0 {
        lemma_one_emission_per_cycle(state, events.drop_last());
        let (reached, actions) = run(state, events.drop_last());
        match step_spec(reached, events.last()) {
            Some((next, action)) => {
                assert(actions.push(action).drop_last() == actions);
            },
            None => {},
        }
    }
}

/// The pause after a cycle goes by what the cycle published: the short
/// pause after a measured latency, the long one after a failure of any
/// kind.
pub proof fn lemma_pause_follows_outcome(state: SamplerStateView, event: SamplerEventView)
    requires
        step_spec(state, event) matches Some((_, action)) && action is Emit,
    ensures
        step_spec(state, event) matches Some((next, SamplerActionView::Emit { outcome }))
            && step_spec(next, SamplerEventView::Emitted) == Some(
            (
                SamplerStateView::Waiting,
                SamplerActionView::Wait {
                    millis: if outcome is Success {
                        SUCCESS_DELAY_MS
                    } else {
                        FAILURE_DELAY_MS
                    },
                },
            ),
        ),
{
}

/// A cycle on a well-formed address for which the resolver has no endpoint
/// publishes one lost sample, with the reason `ResolutionFailed`, and then
/// pauses as after any failure.
pub proof fn lemma_unresolved_cycle_emits_lost(
    address: Seq<char>,
    answer: Result<Seq<Endpoint>, Seq<char>>,
)
    requires
        is_resolvable_form(address),
        answer matches Ok(endpoints) ==> endpoints.len() == 0,
    ensures
        step_spec(SamplerStateView::Resolving { address }, SamplerEventView::Resolved { answer })
            matches Some((state, action)) && state == (SamplerStateView::Emitting {
            succeeded: false,
        }) && (action matches SamplerActionView::Emit { outcome } && outcome.sample_value()
            is Lost && (outcome matches ProbeOutcomeView::Failure { reason } && reason
            is ResolutionFailed)) && step_spec(state, SamplerEventView::Emitted) == Some(
            (SamplerStateView::Waiting, SamplerActionView::Wait { millis: FAILURE_DELAY_MS }),
        ),
{
}

} // verus!
