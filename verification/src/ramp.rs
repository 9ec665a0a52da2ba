//! The restartable bounded generator: a linear down-ramp.
//!
//! A `RampTemplate` holds the immutable parameters (duration and sample
//! rate); a `RampDown` is a working instance derived from it.  The instance
//! emits, for a template of `n` steps, the numerators `n-1, n-2, ..., 0` of
//! the strictly decreasing rational samples `(n-1)/n, ..., 0/n`, and then
//! reports exhaustion forever.  Deriving a fresh instance never touches the
//! template, which is what makes a restart cheap.

use vstd::prelude::*;

use crate::SignalError;
use crate::source::Source;

verus! {

/// Immutable configuration of a down-ramp: duration in whole seconds and
/// sample rate in samples per second.
#[derive(Clone, Copy, Debug, PartialEq, Eq, Structural)]
pub struct RampTemplate {
    pub duration: u32,
    pub sample_rate: u32,
}

impl RampTemplate {
    /// The number of samples a fresh instance emits before exhaustion.
    pub open spec fn steps(&self) -> int {
        self.duration * self.sample_rate
    }

    /// Parameters are positive and the step count fits the sample type.
    pub open spec fn wf(&self) -> bool {
        &&& self.duration > 0
        &&& self.sample_rate > 0
        &&& self.steps() <= i32::MAX
    }

    /// Validate the parameters eagerly: a zero duration or a zero sample
    /// rate would make the trajectory meaningless and is rejected here
    /// rather than surfacing later as a degenerate ramp.
    pub fn new(duration: u32, sample_rate: u32) -> (r: Result<Self, SignalError>)
        requires
            duration * sample_rate <= i32::MAX,
        ensures
            r is Err <==> (duration == 0 || sample_rate == 0),
            r matches Err(e) ==> e == SignalError::InvalidParameter,
            r matches Ok(t) ==> t.duration == duration && t.sample_rate == sample_rate
                && t.wf(),
    {
        if duration == 0 || sample_rate == 0 {
            Err(SignalError::InvalidParameter)
        } else {
            Ok(Self { duration, sample_rate })
        }
    }

    /// Derive a fresh working instance, reproducing the initial trajectory.
    /// The template itself is never mutated by running or restarting.
    pub fn fresh(&self) -> (r: RampDown)
        requires
            self.wf(),
        ensures
            r.rem == self.steps(),
            r.inv(),
    {
        let steps: u64 = (self.duration as u64) * (self.sample_rate as u64);
        RampDown { rem: steps as u32 }
    }
}

/// A running down-ramp instance: `rem` samples are still to come, the next
/// one carrying the numerator `rem - 1`.
pub struct RampDown {
    pub rem: u32,
}

impl Source for RampDown {
    open spec fn inv(&self) -> bool {
        self.rem <= i32::MAX
    }

    open spec fn sval(&self, i: nat) -> Option<i32> {
        if i < self.rem {
            Some((self.rem - 1 - i) as i32)
        } else {
            None
        }
    }

    fn next(&mut self) -> (r: Option<i32>) {
        if self.rem == 0 {
            None
        } else {
            self.rem = self.rem - 1;
            Some(self.rem as i32)
        }
    }

    proof fn lemma_exhausted_forever(&self, i: nat, j: nat) {
    }
}

/// Build the template of a down-ramp, validating its parameters.
pub fn make_ramp_down(duration: u32, sample_rate: u32) -> (r: Result<
    RampTemplate,
    SignalError,
>)
    requires
        duration * sample_rate <= i32::MAX,
    ensures
        r is Err <==> (duration == 0 || sample_rate == 0),
        r matches Err(e) ==> e == SignalError::InvalidParameter,
        r matches Ok(t) ==> t.duration == duration && t.sample_rate == sample_rate
            && t.wf(),
{
    RampTemplate::new(duration, sample_rate)
}

/// A fresh ramp is strictly decreasing: of any two samples still to come,
/// the later one is strictly smaller.
pub proof fn lemma_ramp_strictly_decreasing(w: RampDown, i: nat, j: nat)
    requires
        w.inv(),
        i < j,
        j < w.rem,
    ensures
        w.sval(i) is Some,
        w.sval(j) is Some,
        w.sval(j).unwrap() < w.sval(i).unwrap(),
{
}

/// The last sample before exhaustion carries the numerator zero, and the
/// pull right after it reports exhaustion.
pub proof fn lemma_ramp_ends_at_zero(w: RampDown)
    requires
        w.inv(),
        w.rem > 0,
    ensures
        w.sval((w.rem - 1) as nat) == Some(0i32),
        w.sval(w.rem as nat) is None,
{
}

} // verus!
