//! The state that the sampler and the consumer share: the address to probe
//! and the latest error text.

use vstd::prelude::*;
use vstd::string::*;
use crate::outcome::ProbeOutcome;

verus! {

/// The number of characters of a text that a display shows.
pub const DISPLAY_LEN: usize = 90;

/// The text cut to its first `limit` characters; a text that is no longer
/// than that stays as it is.
pub open spec fn truncated(text: Seq<char>, limit: nat) -> Seq<char> {
    if text.len() <= limit {
        text
    } else {
        text.take(limit as int)
    }
}

/// Cuts `text` to at most `limit` characters, for display. It counts
/// characters, so it never cuts one in two.
pub fn truncate_for_display(text: &str, limit: usize) -> (shown: String)
    ensures
        shown@ == truncated(text@, limit as nat),
{
    let n: usize = text.unicode_len();
    if n <= limit {
        String::from_str(text)
    } else {
        String::from_str(text.substring_char(0, limit))
    }
}

/// The mathematical value of a [`TargetState`].
pub struct TargetStateView {
    /// The address to probe, as the user wrote it.
    pub address: Seq<char>,
    /// The error text of the latest cycle: empty after a success.
    pub last_error: Seq<char>,
}

/// The address to probe and the latest error text. Each holds what was
/// written last; nothing earlier is kept.
#[derive(Debug)]
pub struct TargetState {
    address: String,
    last_error: String,
}

impl View for TargetState {
    type V = TargetStateView;

    closed spec fn view(&self) -> TargetStateView {
        TargetStateView { address: self.address@, last_error: self.last_error@ }
    }
}

impl TargetState {
    /// The state at start: the default address `8.8.8.8` and no error.
    pub fn new() -> (state: Self)
        ensures
            state@ == (TargetStateView { address: "8.8.8.8"@, last_error: Seq::empty() }),
    {
        TargetState { address: String::from_str("8.8.8.8"), last_error: String::new() }
    }

    /// A copy of the address as it stands.
    pub fn get_address(&self) -> (address: String)
        ensures
            address@ == self@.address,
    {
        self.address.clone()
    }

    /// Replaces the address. The text is stored as given, in full.
    pub fn set_address(&mut self, address: String)
        ensures
            final(self)@ == (TargetStateView {
                address: address@,
                last_error: old(self)@.last_error,
            }),
    {
        self.address = address;
    }

    /// A copy of the latest error text.
    pub fn get_last_error(&self) -> (error: String)
        ensures
            error@ == self@.last_error,
    {
        self.last_error.clone()
    }

    /// Replaces the error text.
    pub fn set_last_error(&mut self, error: String)
        ensures
            final(self)@ == (TargetStateView { address: old(self)@.address, last_error: error@ }),
    {
        self.last_error = error;
    }

    /// Leaves the error text of a finished cycle: its message after a
    /// failure, nothing after a success.
    pub fn record_outcome(&mut self, outcome: &ProbeOutcome)
        ensures
            final(self)@ == (TargetStateView {
                address: old(self)@.address,
                last_error: outcome@.error_text(),
            }),
    {
        self.last_error = outcome.error_text();
    }

    /// The address, cut to what a display shows. Only the copy is cut.
    pub fn display_address(&self) -> (shown: String)
        ensures
            shown@ == truncated(self@.address, DISPLAY_LEN as nat),
    {
        truncate_for_display(self.address.as_str(), DISPLAY_LEN)
    }

    /// The latest error text, cut to what a display shows.
    pub fn display_error(&self) -> (shown: String)
        ensures
            shown@ == truncated(self@.last_error, DISPLAY_LEN as nat),
    {
        truncate_for_display(self.last_error.as_str(), DISPLAY_LEN)
    }
}

impl Default for TargetState {
    fn default() -> (value: Self)
        ensures
            value@ == (TargetStateView { address: "8.8.8.8"@, last_error: Seq::empty() }),
    {
        TargetState::new()
    }
}

} // verus!
