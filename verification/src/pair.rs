//! The pairing combinator: zip two sources pointwise with a binary
//! operator; the shorter side wins.

use vstd::prelude::*;

use crate::source::Source;

verus! {

/// The binary operators the pairing combinator applies pointwise.
#[derive(Clone, Copy, Debug, PartialEq, Eq, Structural)]
pub enum BinOp {
    Add,
    Multiply,
}

/// The mathematical result of one operator application.
pub open spec fn apply_op(op: BinOp, a: int, b: int) -> int {
    match op {
        BinOp::Add => a + b,
        BinOp::Multiply => a * b,
    }
}

/// Two sources zipped pointwise with a binary operator.  Samples are
/// widened to 64 bits, so no operator application can overflow.
pub struct Pair<A, B> {
    pub left: A,
    pub right: B,
    pub op: BinOp,
}

impl<A: Source, B: Source> Pair<A, B> {
    pub open spec fn inv(&self) -> bool {
        &&& self.left.inv()
        &&& self.right.inv()
    }

    /// The sample the `i`-th pull from the current state would yield:
    /// the operator applied to the two sides' `i`-th samples, or exhaustion
    /// as soon as either side is exhausted there.
    pub open spec fn sval(&self, i: nat) -> Option<i64> {
        match (self.left.sval(i), self.right.sval(i)) {
            (Some(a), Some(b)) => Some(apply_op(self.op, a as int, b as int) as i64),
            _ => None,
        }
    }

    /// Pull both sides once; if both yielded a sample, emit the operator
    /// applied to them, otherwise report exhaustion.  Both sides advance on
    /// every pull, and neither is ever restarted from here.
    pub fn next(&mut self) -> (r: Option<i64>)
        requires
            old(self).inv(),
        ensures
            final(self).inv(),
            final(self).op == old(self).op,
            r == old(self).sval(0),
            forall|i: nat| #[trigger] final(self).sval(i) == old(self).sval(i + 1),
    {
        let a = self.left.next();
        let b = self.right.next();
        match (a, b) {
            (Some(x), Some(y)) => {
                let wx = x as i64;
                let wy = y as i64;
                match self.op {
                    BinOp::Add => Some(wx + wy),
                    BinOp::Multiply => {
                        proof {
                            assert(-0x4000_0000_0000_0000 <= wx * wy <= 0x4000_0000_0000_0000)
                                by (nonlinear_arith)
                                requires
                                    -0x8000_0000 <= wx <= 0x7fff_ffff,
                                    -0x8000_0000 <= wy <= 0x7fff_ffff,
                            ;
                        }
                        Some(wx * wy)
                    },
                }
            },
            _ => None,
        }
    }

    /// Exhaustion of the zipped stream is permanent, because it is
    /// permanent on whichever side caused it.
    pub proof fn lemma_exhausted_forever(&self, i: nat, j: nat)
        requires
            self.inv(),
            i <= j,
            self.sval(i) is None,
        ensures
            self.sval(j) is None,
    {
        if self.left.sval(i) is None {
            self.left.lemma_exhausted_forever(i, j);
        } else {
            self.right.lemma_exhausted_forever(i, j);
        }
    }
}

/// Zip two sources pointwise with a binary operator.  The result exhausts
/// at the first index where either side is exhausted: the shorter side
/// wins.
pub fn pair<A: Source, B: Source>(a: A, b: B, op: BinOp) -> (r: Pair<A, B>)
    requires
        a.inv(),
        b.inv(),
    ensures
        r.inv(),
        r.left == a,
        r.right == b,
        r.op == op,
{
    Pair { left: a, right: b, op }
}

} // verus!
