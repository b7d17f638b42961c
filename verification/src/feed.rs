//! The ordered feed that carries outcomes from the sampler to the consumer.

use vstd::prelude::*;
use crate::outcome::{outcome_views, ProbeOutcome, ProbeOutcomeView};

verus! {

/// A first-in, first-out queue of outcomes. The sampler sends into it; the
/// consumer drains it without ever waiting.
#[derive(Debug)]
pub struct SampleFeed {
    pending: Vec<ProbeOutcome>,
}

impl View for SampleFeed {
    type V = Seq<ProbeOutcomeView>;

    closed spec fn view(&self) -> Seq<ProbeOutcomeView> {
        outcome_views(self.pending@)
    }
}

impl SampleFeed {
    /// An empty feed.
    pub fn new() -> (feed: Self)
        ensures
            feed@ == Seq::<ProbeOutcomeView>::empty(),
    {
        SampleFeed { pending: Vec::new() }
    }

    /// Puts `outcome` behind everything that is pending.
    pub fn send(&mut self, outcome: ProbeOutcome)
        ensures
            final(self)@ == old(self)@.push(outcome@),
    {
        self.pending.push(outcome);
    }

    /// The number of outcomes that are pending.
    pub fn pending(&self) -> (n: usize)
        ensures
            n == self@.len(),
    {
        self.pending.len()
    }

    /// Takes out everything that is pending, oldest first, and leaves the
    /// feed empty. With nothing pending it hands back nothing.
    pub fn drain(&mut self) -> (outcomes: Vec<ProbeOutcome>)
        ensures
            outcome_views(outcomes@) == old(self)@,
            final(self)@ == Seq::<ProbeOutcomeView>::empty(),
    {
        let mut outcomes: Vec<ProbeOutcome> = Vec::new();
        core::mem::swap(&mut self.pending, &mut outcomes);
        outcomes
    }
}

impl Default for SampleFeed {
    fn default() -> (value: Self)
        ensures
            value@ == Seq::<ProbeOutcomeView>::empty(),
    {
        SampleFeed::new()
    }
}

} // verus!
