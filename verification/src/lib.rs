//! A latency-sampling engine for a live plot of round-trip times to one
//! host.
//!
//! The sampler ([`sampler`]) is a state machine: it decides what a cycle does
//! next, classifies what came of it and paces the cycles, while its driver
//! does the lookups, the probes and the sleeping. It resolves the address
//! with [`address`], and publishes one outcome ([`outcome`]) per cycle
//! through the shared state ([`target`]) and the feed ([`feed`]). The
//! consumer keeps the series and its loss counters ([`series`]), derives
//! best, worst and average latency ([`stats`]), and writes what a display
//! shows ([`render`]).
//!
//! Latencies are whole milliseconds. A cycle that measured none is a lost
//! sample, never a zero.

pub mod address;
pub mod feed;
pub mod outcome;
pub mod render;
pub mod sampler;
pub mod series;
pub mod stats;
pub mod target;
