//! The reset-controlled fallback combinator.
//!
//! `CycleOnPing` plays a working instance of a down-ramp until it is
//! exhausted, then falls back to a second source, forever, until a restart
//! happens.  A restart is requested either synchronously (`ping`) or from
//! outside the pull loop through a `ControlHandle` that shares one boolean
//! reset cell with the combinator.  The handle only marks the request as
//! pending; the combinator alone consumes it, at the start of the next
//! `pull`, so repeated requests before that pull coalesce into one restart.
//!
//! The contents of the shared cell are not part of the combinator's
//! mathematical state: a pull promises, for some value of the pending flag
//! it read, exactly the transition `step` makes for that value.  `step`
//! itself is deterministic and fully specified.

use std::rc::Rc;

use vstd::cell::invcell::InvCell;
use vstd::predicate::Predicate;
use vstd::prelude::*;

use crate::ramp::{RampDown, RampTemplate};
use crate::source::Source;

verus! {

/// Invariant of the shared reset cell: any boolean may be stored.
pub struct AnyBool {}

impl Predicate<bool> for AnyBool {
    open spec fn predicate(&self, v: bool) -> bool {
        true
    }
}

/// The external capability to request a deferred restart.  Invoking it has
/// no immediate effect on output; the pending request is applied at the
/// start of the next `pull`.
pub struct ControlHandle {
    pub flag: Rc<InvCell<bool, AnyBool>>,
}

impl ControlHandle {
    /// Mark a restart as pending.  Several invocations before the next pull
    /// have the same effect as one.
    pub fn invoke(&self) {
        self.flag.set(true);
    }
}

/// The reset-controlled fallback combinator: a ramp template, its current
/// working instance, a fallback source, and the shared reset cell.
pub struct CycleOnPing<F> {
    pub template: RampTemplate,
    pub working: RampDown,
    pub fallback: F,
    pub flag: Rc<InvCell<bool, AnyBool>>,
}

/// The deterministic transition one pull makes, given the value `restart`
/// of the pending-reset flag it consumed: a requested restart first replaces
/// the working instance with a fresh copy of the template; then the working
/// instance is pulled, and if it is exhausted the sample comes from the
/// fallback instead, which is the only case in which the fallback advances.
pub open spec fn pull_spec<F: Source>(
    pre: CycleOnPing<F>,
    post: CycleOnPing<F>,
    r: Option<i32>,
    restart: bool,
) -> bool {
    let w0 = if restart {
        pre.template.steps()
    } else {
        pre.working.rem as int
    };
    &&& post.template == pre.template
    &&& if w0 > 0 {
        &&& r == Some((w0 - 1) as i32)
        &&& post.working.rem == w0 - 1
        &&& post.fallback == pre.fallback
    } else {
        &&& r == pre.fallback.sval(0)
        &&& post.working.rem == 0
        &&& forall|i: nat| #[trigger] post.fallback.sval(i) == pre.fallback.sval(i + 1)
    }
}

impl<F: Source> CycleOnPing<F> {
    /// Well-formedness: the template is valid, the working instance never
    /// holds more steps than the template provides, and the fallback is
    /// well formed.
    pub open spec fn inv(&self) -> bool {
        &&& self.template.wf()
        &&& self.working.rem <= self.template.steps()
        &&& self.fallback.inv()
    }

    /// Apply the transition of one pull for a known value of the consumed
    /// reset flag.  This is the verified heart of the combinator: `pull`
    /// reads the shared cell and hands the value read to `step`.
    pub fn step(&mut self, restart: bool) -> (r: Option<i32>)
        requires
            old(self).inv(),
        ensures
            final(self).inv(),
            pull_spec(*old(self), *final(self), r, restart),
    {
        if restart {
            self.working = self.template.fresh();
        }
        let ghost prev = self.working;
        let pulled = self.working.next();
        proof {
            // Pin down the new working state: its first future sample is the
            // old second one, which fixes its remaining step count.
            assert(self.working.sval(0) == prev.sval(1));
        }
        match pulled {
            Some(v) => Some(v),
            None => self.fallback.next(),
        }
    }

    /// Pull one sample.  The pending-reset flag is read and cleared first;
    /// for the value it held, the transition is exactly the one `step`
    /// makes.  The combinator never exhausts as long as the fallback does
    /// not: the working instance stays exhausted between restarts and the
    /// fallback is consulted on every pull in between.
    pub fn pull(&mut self) -> (r: Option<i32>)
        requires
            old(self).inv(),
        ensures
            final(self).inv(),
            exists|restart: bool| pull_spec(*old(self), *final(self), r, restart),
            old(self).fallback.sval(0) is Some ==> r is Some,
    {
        let restart = self.flag.replace(false);
        let r = self.step(restart);
        proof {
            assert(pull_spec(*old(self), *final(self), r, restart));
        }
        r
    }

    /// Restart the working instance immediately and synchronously, from the
    /// template, discarding any in-progress state.  The reset-signal path is
    /// not consulted and the fallback is untouched.
    pub fn ping(&mut self)
        requires
            old(self).inv(),
        ensures
            final(self).inv(),
            final(self).template == old(self).template,
            final(self).working.rem == old(self).template.steps(),
            final(self).fallback == old(self).fallback,
    {
        self.working = self.template.fresh();
    }
}

/// Build the combinator and its external control handle from a ramp
/// template and a fallback source.  The working instance starts as a fresh
/// copy of the template, and both returned values share one reset cell,
/// initially clear.
pub fn make_cycle_on_ping<F: Source>(template: RampTemplate, fallback: F) -> (r: (
    CycleOnPing<F>,
    ControlHandle,
))
    requires
        template.wf(),
        fallback.inv(),
    ensures
        r.0.inv(),
        r.0.template == template,
        r.0.working.rem == template.steps(),
        r.0.fallback == fallback,
{
    let cell = Rc::new(InvCell::new(false, Ghost(AnyBool {})));
    let handle = ControlHandle { flag: cell.clone() };
    let working = template.fresh();
    (CycleOnPing { template, working, fallback, flag: cell }, handle)
}

} // verus!
