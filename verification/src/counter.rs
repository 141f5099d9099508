//! The shared call counter: a process-lifetime, monotonically non-decreasing
//! count of intercepted calls. It starts at zero, grows by exactly one per
//! intercepted call, and is never reset or decremented.

use vstd::prelude::*;

verus! {

/// The count of intercepted calls observed so far.
///
/// The embedding owns one such counter for the whole process and threads it
/// into both call sites (the call interceptor, which increments it, and the
/// frame tick handler, which snapshots it).
pub struct CallCounter {
    count: u64,
}

impl CallCounter {
    /// The abstract value of the counter: how many calls it has recorded.
    pub closed spec fn view(&self) -> nat {
        self.count as nat
    }

    /// A fresh counter starts at zero.
    pub fn new() -> (c: Self)
        ensures
            c@ == 0,
    {
        CallCounter { count: 0 }
    }

    /// Record one intercepted call and return the post-increment value.
    pub fn increment(&mut self) -> (r: u64)
        requires
            old(self)@ < u64::MAX,
        ensures
            final(self)@ == old(self)@ + 1,
            r == final(self)@,
    {
        self.count = self.count + 1;
        self.count
    }

    /// Read the current value without modifying it.
    pub fn snapshot(&self) -> (r: u64)
        ensures
            r == self@,
    {
        self.count
    }
}

/// How many of the first `i` operations in `ops` are increments
/// (`true` stands for an increment, `false` for a snapshot).
pub open spec fn increments_before(ops: Seq<bool>, i: int) -> nat
    decreases i,
{
    if i <= 0 {
        0
    } else {
        increments_before(ops, i - 1) + (if 0 < i <= ops.len() && ops[i - 1] {
            1nat
        } else {
            0nat
        })
    }
}

/// Monotonicity: over any sequence of `increment` and `snapshot` operations,
/// the counter's value after the first `i` of them is `c0` plus the number of
/// increments among them, so no later `snapshot` or `increment` result is ever
/// below an earlier one.
pub proof fn lemma_counter_monotonic(ops: Seq<bool>, c0: nat, i: int, j: int)
    requires
        i <= j,
    ensures
        c0 + increments_before(ops, i) <= c0 + increments_before(ops, j),
    decreases j - i,
{
    if i < j {
        lemma_counter_monotonic(ops, c0, i, j - 1);
    }
}

} // verus!
