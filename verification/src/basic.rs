//! Leaf generators and a truncating combinator: constant streams, a wrapping
//! counter, walkers over a vector or a borrowed slice, and `Take`.

use vstd::prelude::*;

use crate::source::Source;

verus! {

/// An endless stream of zeros.
pub struct Zeros {}

impl Source for Zeros {
    open spec fn inv(&self) -> bool {
        true
    }

    open spec fn sval(&self, i: nat) -> Option<i32> {
        Some(0i32)
    }

    fn next(&mut self) -> (r: Option<i32>) {
        Some(0)
    }

    proof fn lemma_exhausted_forever(&self, i: nat, j: nat) {
    }
}

/// An endless stream of ones.
pub struct Ones {}

impl Source for Ones {
    open spec fn inv(&self) -> bool {
        true
    }

    open spec fn sval(&self, i: nat) -> Option<i32> {
        Some(1i32)
    }

    fn next(&mut self) -> (r: Option<i32>) {
        Some(1)
    }

    proof fn lemma_exhausted_forever(&self, i: nat, j: nat) {
    }
}

/// An endless stream repeating one chosen sample.
pub struct SingleNumbers {
    pub ret: i32,
}

impl Source for SingleNumbers {
    open spec fn inv(&self) -> bool {
        true
    }

    open spec fn sval(&self, i: nat) -> Option<i32> {
        Some(self.ret)
    }

    fn next(&mut self) -> (r: Option<i32>) {
        Some(self.ret)
    }

    proof fn lemma_exhausted_forever(&self, i: nat, j: nat) {
    }
}

/// The successor of `r` in wrapping 32-bit arithmetic.
pub open spec fn wrap_inc(r: i32) -> i32 {
    if r == i32::MAX {
        i32::MIN
    } else {
        (r + 1) as i32
    }
}

/// The sample the counter emits `i` pulls after its value is `r`.
pub open spec fn inc_nth(r: i32, i: nat) -> i32
    decreases i,
{
    if i == 0 {
        r
    } else {
        inc_nth(wrap_inc(r), (i - 1) as nat)
    }
}

/// An endless counter that starts at a chosen value and wraps around on
/// 32-bit overflow.
pub struct Incrementing {
    pub ret: i32,
}

impl Incrementing {
    pub fn new(start: i32) -> (r: Self)
        ensures
            r.ret == start,
    {
        Self { ret: start }
    }
}

impl Source for Incrementing {
    open spec fn inv(&self) -> bool {
        true
    }

    open spec fn sval(&self, i: nat) -> Option<i32> {
        Some(inc_nth(self.ret, i))
    }

    fn next(&mut self) -> (r: Option<i32>) {
        let r = self.ret;
        self.ret = if self.ret == i32::MAX {
            i32::MIN
        } else {
            self.ret + 1
        };
        Some(r)
    }

    proof fn lemma_exhausted_forever(&self, i: nat, j: nat) {
    }
}

/// A walker that emits the elements of an owned vector in order, then
/// reports exhaustion.
pub struct AllInVec {
    pub v: Vec<i32>,
    pub index: usize,
}

impl AllInVec {
    pub fn new(v: Vec<i32>) -> (r: Self)
        ensures
            r.v == v,
            r.index == 0,
    {
        Self { v, index: 0 }
    }
}

impl Source for AllInVec {
    open spec fn inv(&self) -> bool {
        true
    }

    open spec fn sval(&self, i: nat) -> Option<i32> {
        if self.index + i < self.v@.len() {
            Some(self.v@[self.index + i])
        } else {
            None
        }
    }

    fn next(&mut self) -> (r: Option<i32>) {
        if self.index >= self.v.len() {
            None
        } else {
            let i = self.index;
            self.index += 1;
            Some(self.v[i])
        }
    }

    proof fn lemma_exhausted_forever(&self, i: nat, j: nat) {
    }
}

/// A walker that emits references to the elements of a borrowed slice in
/// order, then reports exhaustion.
pub struct AllInSlice<'a, T> {
    pub v: &'a [T],
    pub index: usize,
}

impl<'a, T> AllInSlice<'a, T> {
    pub fn new(v: &'a [T]) -> (r: Self)
        ensures
            r.v == v,
            r.index == 0,
    {
        Self { v, index: 0 }
    }

    /// Pull the next element of the slice, or report exhaustion once the
    /// end is passed.
    pub fn next(&mut self) -> (r: Option<&'a T>)
        ensures
            final(self).v == old(self).v,
            old(self).index < old(self).v@.len() ==> {
                &&& final(self).index == old(self).index + 1
                &&& r matches Some(t) && *t == old(self).v@[old(self).index as int]
            },
            old(self).index >= old(self).v@.len() ==> {
                &&& final(self).index == old(self).index
                &&& r is None
            },
    {
        if self.index >= self.v.len() {
            None
        } else {
            let i = self.index;
            self.index += 1;
            Some(&self.v[i])
        }
    }
}

/// A combinator that passes through at most `count` pulls of an inner
/// source, then reports exhaustion.
pub struct Take<I> {
    pub iter: I,
    pub count: usize,
}

impl<I> Take<I> {
    pub fn new(iter: I, count: usize) -> (r: Self)
        ensures
            r.iter == iter,
            r.count == count,
    {
        Self { iter, count }
    }
}

impl<I: Source> Source for Take<I> {
    open spec fn inv(&self) -> bool {
        self.iter.inv()
    }

    open spec fn sval(&self, i: nat) -> Option<i32> {
        if i < self.count {
            self.iter.sval(i)
        } else {
            None
        }
    }

    fn next(&mut self) -> (r: Option<i32>) {
        if self.count > 0 {
            self.count -= 1;
            self.iter.next()
        } else {
            None
        }
    }

    proof fn lemma_exhausted_forever(&self, i: nat, j: nat) {
        if j < self.count {
            self.iter.lemma_exhausted_forever(i, j);
        }
    }
}

/// The constant stream of zeros, under the name the composition interface
/// uses.
pub fn make_zero() -> (r: Zeros)
    ensures
        forall|i: nat| #[trigger] r.sval(i) == Some(0i32),
{
    Zeros {}
}

/// The constant stream of ones, under the name the composition interface
/// uses.
pub fn make_one() -> (r: Ones)
    ensures
        forall|i: nat| #[trigger] r.sval(i) == Some(1i32),
{
    Ones {}
}

} // verus!
