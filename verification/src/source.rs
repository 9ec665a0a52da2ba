//! The one capability every generator satisfies: pull the next sample, or
//! signal exhaustion.

use vstd::prelude::*;

verus! {

/// A pull-driven sample source.
///
/// The whole future of a source in a given state is described by the spec
/// function `sval`: `sval(i)` is the sample that the `i`-th pull from this
/// state would return, or `None` if that pull would report exhaustion.
/// `next` returns `sval(0)` and shifts the future left by one.
pub trait Source: Sized {
    /// Well-formedness of the source's state; established by constructors
    /// and preserved by `next`.
    spec fn inv(&self) -> bool;

    /// The sample that the `i`-th pull from the current state would yield,
    /// or `None` if that pull would report exhaustion.
    spec fn sval(&self, i: nat) -> Option<i32>;

    /// Pull the next sample, advancing the state by exactly one step.
    fn next(&mut self) -> (r: Option<i32>)
        requires
            old(self).inv(),
        ensures
            final(self).inv(),
            r == old(self).sval(0),
            forall|i: nat| #[trigger] final(self).sval(i) == old(self).sval(i + 1),
    ;

    /// Exhaustion is permanent: once some pull would report exhaustion,
    /// every later pull from the same state reports exhaustion too.  A source
    /// never resurrects on its own.
    proof fn lemma_exhausted_forever(&self, i: nat, j: nat)
        requires
            self.inv(),
            i <= j,
            self.sval(i) is None,
        ensures
            self.sval(j) is None,
    ;
}

} // verus!
