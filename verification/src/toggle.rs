//! The toggling oscillator: a two-state machine whose first sample is fixed
//! by its configuration and which then strictly alternates between one and
//! zero forever.

use vstd::prelude::*;

use crate::source::Source;

verus! {

/// The two named initial configurations of the toggling oscillator, by the
/// sample each one emits first.
#[derive(Clone, Copy, Debug, PartialEq, Eq, Structural)]
pub enum ToggleStart {
    ZeroFirst,
    OneFirst,
}

/// The toggling oscillator.  `next_one` is true exactly when the next pull
/// emits a one.
pub struct Toggle {
    pub next_one: bool,
}

impl Source for Toggle {
    open spec fn inv(&self) -> bool {
        true
    }

    open spec fn sval(&self, i: nat) -> Option<i32> {
        if (i % 2 == 0) == self.next_one {
            Some(1i32)
        } else {
            Some(0i32)
        }
    }

    fn next(&mut self) -> (r: Option<i32>) {
        let r: i32 = if self.next_one {
            1
        } else {
            0
        };
        self.next_one = !self.next_one;
        Some(r)
    }

    proof fn lemma_exhausted_forever(&self, i: nat, j: nat) {
    }
}

/// Build a toggling oscillator.  Whatever the configuration is called, the
/// observable behaviour is fixed here: started with `OneFirst` it emits
/// `1, 0, 1, 0, ...`, started with `ZeroFirst` it emits `0, 1, 0, 1, ...`.
pub fn make_toggle(start: ToggleStart) -> (r: Toggle)
    ensures
        r.next_one == (start is OneFirst),
        forall|i: nat| #[trigger] r.sval(i) == Some(
            if (i % 2 == 0) == (start is OneFirst) {
                1i32
            } else {
                0i32
            },
        ),
{
    Toggle { next_one: matches!(start, ToggleStart::OneFirst) }
}

} // verus!
