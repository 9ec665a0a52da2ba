//! Pull-based signal generators and combinators.
//!
//! Every generator exposes one capability: pull the next sample, or signal
//! exhaustion.  Small leaf generators (constants, counters, vector and slice
//! walkers, a toggling oscillator, a linear down-ramp) are composed by
//! combinators: `Take` truncates a source, `Pair` zips two sources with a
//! binary operator, and `CycleOnPing` plays a restartable bounded ramp until
//! it is exhausted, then falls back to a second source, restarting the ramp
//! on demand through a shared control handle.
//!
//! Samples are integers.  The down-ramp emits the numerators of the rational
//! values `(n-1)/n, (n-2)/n, ..., 0/n`; a driver that wants real-valued
//! samples divides by the step count of the ramp's template.

use vstd::prelude::*;

pub mod basic;
pub mod cycle;
pub mod entity;
pub mod pair;
pub mod ramp;
pub mod source;
pub mod toggle;

verus! {

/// Error returned when a generator is constructed from parameters that would
/// make its trajectory meaningless (a zero duration or a zero sample rate).
#[derive(Clone, Copy, Debug, PartialEq, Eq, Structural)]
pub enum SignalError {
    InvalidParameter,
}

} // verus!
