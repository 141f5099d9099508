//! The call-rate aggregator: a fixed-capacity circular window of per-tick
//! call-count deltas. Each frame tick feeds it the cumulative call count; it
//! computes the delta since the previous tick, overwrites the next window
//! slot in round-robin order, and reports the sum of all slots, from which
//! the rolling mean over the window is the sum divided by the capacity.

use vstd::arithmetic::div_mod::lemma_add_mod_noop;
use vstd::arithmetic::div_mod::lemma_div_is_ordered;
use vstd::arithmetic::div_mod::lemma_mod_division_less_than_divisor;
use vstd::arithmetic::div_mod::lemma_mod_equivalence;
use vstd::arithmetic::div_mod::lemma_small_mod;
use vstd::arithmetic::div_mod::lemma_mod_add_multiples_vanish;
use vstd::arithmetic::mul::lemma_mul_is_commutative;
use vstd::arithmetic::div_mod::lemma_div_multiples_vanish;
use vstd::prelude::*;

verus! {

/// Number of slots in the sliding window. At a typical display refresh rate
/// the window spans roughly one second of wall time.
pub const RATE_WINDOW_SIZE: usize = 30;

/// The abstract state of the aggregator: the cumulative count sampled at the
/// previous tick, the slot most recently written, and the window contents.
#[verifier::ext_equal]
pub struct RateModel {
    pub prev: nat,
    pub index: nat,
    pub window: Seq<u64>,
}

/// A well-formed model: the window has exactly `RATE_WINDOW_SIZE` slots and
/// the rolling index points at one of them.
pub open spec fn model_wf(m: RateModel) -> bool {
    &&& m.window.len() == RATE_WINDOW_SIZE
    &&& m.index < RATE_WINDOW_SIZE
}

/// The state of a fresh aggregator: nothing sampled yet, all slots
/// logically zero, index at the first slot.
pub open spec fn fresh_model() -> RateModel {
    RateModel { prev: 0, index: 0, window: Seq::new(RATE_WINDOW_SIZE as nat, |k: int| 0u64) }
}

/// The slot the next tick will overwrite, one past `i` in round-robin order.
pub open spec fn next_index(i: nat) -> nat {
    (i + 1) % (RATE_WINDOW_SIZE as nat)
}

/// One tick of the aggregator on cumulative count `c`: remember `c`, advance
/// the index, and overwrite the slot it now points at with the delta since
/// the previous tick.
pub open spec fn spec_tick(m: RateModel, c: u64) -> RateModel {
    RateModel {
        prev: c as nat,
        index: next_index(m.index),
        window: m.window.update(next_index(m.index) as int, (c - m.prev) as u64),
    }
}

/// The sum of all window slots. The rolling mean is this divided by
/// `RATE_WINDOW_SIZE`.
pub open spec fn window_sum(w: Seq<u64>) -> int
    decreases w.len(),
{
    if w.len() == 0 {
        0
    } else {
        window_sum(w.drop_last()) + w.last()
    }
}

/// The rate aggregator. Owned and driven by a single caller (the frame tick
/// handler); one `tick` per display frame.
pub struct RateAggregator {
    prev: u64,
    index: usize,
    window: Vec<u64>,
}

impl RateAggregator {
    /// The abstract state of this aggregator.
    pub closed spec fn view(&self) -> RateModel {
        RateModel { prev: self.prev as nat, index: self.index as nat, window: self.window@ }
    }

    /// Structural well-formedness, established by `new` and kept by `tick`.
    pub open spec fn wf(&self) -> bool {
        model_wf(self@)
    }

    /// A fresh aggregator.
    pub fn new() -> (r: Self)
        ensures
            r.wf(),
            r@ == fresh_model(),
    {
        let mut window: Vec<u64> = Vec::new();
        let mut i: usize = 0;
        while i < RATE_WINDOW_SIZE
            invariant
                i <= RATE_WINDOW_SIZE,
                window@ =~= Seq::new(i as nat, |k: int| 0u64),
            decreases RATE_WINDOW_SIZE - i,
        {
            window.push(0);
            proof {
                assert(window@ =~= Seq::new((i + 1) as nat, |k: int| 0u64));
            }
            i = i + 1;
        }
        let r = RateAggregator { prev: 0, index: 0, window };
        proof {
            assert(r@ =~= fresh_model());
        }
        r
    }

    /// The sum of the current window contents. It fits in a `u128` because
    /// the window holds `RATE_WINDOW_SIZE` values of at most `u64::MAX`.
    pub fn current_window_sum(&self) -> (s: u128)
        requires
            self.wf(),
        ensures
            s == window_sum(self@.window),
    {
        let mut acc: u128 = 0;
        let mut i: usize = 0;
        while i < RATE_WINDOW_SIZE
            invariant
                self.wf(),
                i <= RATE_WINDOW_SIZE,
                acc == window_sum(self@.window.take(i as int)),
                acc <= i * (u64::MAX as int),
            decreases RATE_WINDOW_SIZE - i,
        {
            proof {
                assert(self@.window.take(i + 1).drop_last() =~= self@.window.take(i as int));
                assert(self@.window.take(i + 1).last() == self@.window[i as int]);
            }
            acc = acc + (self.window[i] as u128);
            i = i + 1;
        }
        proof {
            assert(self@.window.take(RATE_WINDOW_SIZE as int) =~= self@.window);
        }
        acc
    }

    /// One frame tick. `current` is the cumulative call count sampled this
    /// frame; it is never below the previous sample because the counter is
    /// monotonic. Returns this tick's delta and the new window sum; the
    /// rolling mean displayed is the sum divided by `RATE_WINDOW_SIZE`.
    pub fn tick(&mut self, current: u64) -> (r: (u64, u128))
        requires
            old(self).wf(),
            old(self)@.prev <= current,
        ensures
            final(self).wf(),
            final(self)@ == spec_tick(old(self)@, current),
            r.0 == current - old(self)@.prev,
            r.1 == window_sum(final(self)@.window),
    {
        let delta = current - self.prev;
        self.prev = current;
        self.index = (self.index + 1) % RATE_WINDOW_SIZE;
        self.window.set(self.index, delta);
        proof {
            assert(self@ =~= spec_tick(old(self)@, current));
        }
        let sum = self.current_window_sum();
        (delta, sum)
    }
}

/// Cumulative counts are monotone: each sample is at least the one before.
/// This always holds of samples of the call counter, which never decreases.
pub open spec fn monotonic(cs: Seq<u64>) -> bool {
    forall|i: int| 0 < i < cs.len() ==> cs[i - 1] <= #[trigger] cs[i]
}

/// The delta the aggregator stores at tick `t` when fed the cumulative
/// counts `cs`: the difference from the previous sample, with nothing
/// sampled before the first tick.
pub open spec fn delta_of(cs: Seq<u64>, t: int) -> u64 {
    if t == 0 {
        cs[0]
    } else {
        (cs[t] - cs[t - 1]) as u64
    }
}

/// The aggregator's state after feeding it the cumulative counts `cs`,
/// one tick per element, starting from a fresh aggregator.
pub open spec fn run(cs: Seq<u64>) -> RateModel
    decreases cs.len(),
{
    if cs.len() == 0 {
        fresh_model()
    } else {
        spec_tick(run(cs.drop_last()), cs.last())
    }
}

/// One more tick extends a run: feeding `c` to an aggregator in state
/// `run(cs)` — which is what `tick` does, by its contract — leaves it in
/// state `run(cs.push(c))`.
pub proof fn lemma_run_push(cs: Seq<u64>, c: u64)
    ensures
        run(cs.push(c)) == spec_tick(run(cs), c),
{
    assert(cs.push(c).drop_last() =~= cs);
}

/// Running any sequence of ticks keeps the model well formed.
pub proof fn lemma_run_wf(cs: Seq<u64>)
    ensures
        model_wf(run(cs)),
    decreases cs.len(),
{
    if cs.len() > 0 {
        lemma_run_wf(cs.drop_last());
        lemma_mod_division_less_than_divisor(
            run(cs.drop_last()).index + 1 as int,
            RATE_WINDOW_SIZE as int,
        );
    }
}

/// The cumulative count the aggregator remembers after the ticks of `cs`:
/// the last sample, or zero before the first tick.
pub proof fn lemma_run_prev(cs: Seq<u64>)
    ensures
        run(cs).prev == if cs.len() == 0 {
            0nat
        } else {
            cs.last() as nat
        },
{
}

/// Delta correctness: when the aggregator is driven by the cumulative counts
/// `cs`, the delta returned at tick `t` is exactly `cs[t] - cs[t - 1]` (with
/// nothing before the first sample), and it is never negative.
pub proof fn lemma_delta_correctness(cs: Seq<u64>, t: int)
    requires
        monotonic(cs),
        0 <= t < cs.len(),
    ensures
        cs[t] - run(cs.take(t)).prev == delta_of(cs, t),
        cs[t] - run(cs.take(t)).prev >= 0,
{
    lemma_run_prev(cs.take(t));
    if t > 0 {
        assert(cs.take(t).last() == cs[t - 1]);
    }
}

/// The slot a tick writes: tick `t` (counted from zero on a fresh
/// aggregator) advances the index from `t % RATE_WINDOW_SIZE` and so writes
/// slot `(t + 1) % RATE_WINDOW_SIZE`.
pub open spec fn slot_of(t: int) -> int {
    (t + 1) % (RATE_WINDOW_SIZE as int)
}

/// After the ticks of `cs`, the rolling index stands at
/// `cs.len() % RATE_WINDOW_SIZE`.
pub proof fn lemma_run_index(cs: Seq<u64>)
    ensures
        run(cs).index == cs.len() % (RATE_WINDOW_SIZE as nat),
    decreases cs.len(),
{
    let n = RATE_WINDOW_SIZE as int;
    if cs.len() == 0 {
        lemma_small_mod(0, RATE_WINDOW_SIZE as nat);
    } else {
        lemma_run_index(cs.drop_last());
        lemma_small_mod(1, RATE_WINDOW_SIZE as nat);
        lemma_add_mod_noop(cs.len() - 1, 1, n);
    }
}

/// The value slot `j` holds after the ticks of `cs`: the delta of the last
/// tick that wrote slot `j`, or zero if no tick has written it yet.
pub open spec fn slot_value(cs: Seq<u64>, j: int) -> u64
    decreases cs.len(),
{
    if cs.len() == 0 {
        0u64
    } else if slot_of(cs.len() - 1) == j {
        delta_of(cs, cs.len() - 1)
    } else {
        slot_value(cs.drop_last(), j)
    }
}

/// Window characterization: after the ticks of `cs`, slot `j` holds the
/// delta of the last tick that wrote it, or zero if none has.
pub proof fn lemma_run_window(cs: Seq<u64>, j: int)
    requires
        0 <= j < RATE_WINDOW_SIZE,
    ensures
        run(cs).window[j] == slot_value(cs, j),
    decreases cs.len(),
{
    let n = RATE_WINDOW_SIZE as int;
    if cs.len() == 0 {
    } else {
        let dl = cs.drop_last();
        lemma_run_window(dl, j);
        lemma_run_wf(dl);
        lemma_run_index(dl);
        lemma_run_prev(dl);
        lemma_small_mod(1, RATE_WINDOW_SIZE as nat);
        lemma_add_mod_noop(cs.len() - 1, 1, n);
        lemma_mod_division_less_than_divisor(cs.len() as int, n);
        assert(next_index(run(dl).index) == slot_of(cs.len() - 1));
        if slot_of(cs.len() - 1) == j {
            if dl.len() > 0 {
                assert(dl.last() == cs[cs.len() - 2]);
            }
        }
    }
}

/// Two ticks less than a full window apart never write the same slot.
pub proof fn lemma_slot_unique(t1: int, t2: int)
    requires
        0 <= t1 < t2,
        t2 - t1 < RATE_WINDOW_SIZE,
    ensures
        slot_of(t1) != slot_of(t2),
{
    let n = RATE_WINDOW_SIZE as int;
    lemma_mod_equivalence(t2 + 1, t1 + 1, n);
    lemma_small_mod((t2 - t1) as nat, RATE_WINDOW_SIZE as nat);
}

/// If tick `t` wrote slot `j` and no later tick of `cs` did, slot `j` holds
/// the delta of tick `t`.
pub proof fn lemma_slot_value_found(cs: Seq<u64>, j: int, t: int)
    requires
        0 <= t < cs.len(),
        slot_of(t) == j,
        forall|u: int| t < u < cs.len() ==> slot_of(u) != j,
    ensures
        slot_value(cs, j) == delta_of(cs, t),
    decreases cs.len(),
{
    if cs.len() - 1 > t {
        lemma_slot_value_found(cs.drop_last(), j, t);
    }
}

/// After `RATE_WINDOW_SIZE + 1` ticks, the tick whose delta slot `j` holds:
/// the last tick among `1 ..= RATE_WINDOW_SIZE` that wrote slot `j`.
pub open spec fn final_tick_of_slot(j: int) -> int {
    if j >= 2 {
        j - 1
    } else {
        j + RATE_WINDOW_SIZE - 1
    }
}

/// Window eviction: after `RATE_WINDOW_SIZE + 1` ticks on the cumulative
/// counts `cs`, the window holds exactly the deltas of ticks
/// `1 ..= RATE_WINDOW_SIZE`, one per slot, and the first tick's delta has
/// been evicted.
pub proof fn lemma_window_eviction(cs: Seq<u64>)
    requires
        cs.len() == RATE_WINDOW_SIZE + 1,
    ensures
        forall|t: int|
            1 <= t <= RATE_WINDOW_SIZE ==> run(cs).window[#[trigger] slot_of(t)] == delta_of(
                cs,
                t,
            ),
        forall|t1: int, t2: int|
            1 <= t1 < t2 <= RATE_WINDOW_SIZE ==> #[trigger] slot_of(t1) != #[trigger] slot_of(t2),
        forall|j: int|
            0 <= j < RATE_WINDOW_SIZE ==> 1 <= #[trigger] final_tick_of_slot(j) <= RATE_WINDOW_SIZE
                && slot_of(final_tick_of_slot(j)) == j && run(cs).window[j] == delta_of(
                cs,
                final_tick_of_slot(j),
            ),
{
    let n = RATE_WINDOW_SIZE as int;
    assert forall|t: int| 1 <= t <= RATE_WINDOW_SIZE implies run(cs).window[#[trigger] slot_of(t)]
        == delta_of(cs, t) by {
        lemma_mod_division_less_than_divisor(t + 1, n);
        assert forall|u: int| t < u < cs.len() implies slot_of(u) != slot_of(t) by {
            lemma_slot_unique(t, u);
        }
        lemma_slot_value_found(cs, slot_of(t), t);
        lemma_run_window(cs, slot_of(t));
    }
    assert forall|t1: int, t2: int| 1 <= t1 < t2 <= RATE_WINDOW_SIZE implies #[trigger] slot_of(t1)
        != #[trigger] slot_of(t2) by {
        lemma_slot_unique(t1, t2);
    }
    assert forall|j: int| 0 <= j < RATE_WINDOW_SIZE implies 1 <= #[trigger] final_tick_of_slot(j)
        <= RATE_WINDOW_SIZE && slot_of(final_tick_of_slot(j)) == j && run(cs).window[j] == delta_of(
        cs,
        final_tick_of_slot(j),
    ) by {
        let t = final_tick_of_slot(j);
        if j >= 2 {
            lemma_small_mod(j as nat, RATE_WINDOW_SIZE as nat);
        } else {
            lemma_mod_add_multiples_vanish(j, n);
            lemma_small_mod(j as nat, RATE_WINDOW_SIZE as nat);
        }
        assert(slot_of(t) == j);
    }
}

/// Concatenation splits the window sum.
pub proof fn lemma_window_sum_concat(a: Seq<u64>, b: Seq<u64>)
    ensures
        window_sum(a + b) == window_sum(a) + window_sum(b),
    decreases b.len(),
{
    if b.len() == 0 {
        assert(a + b =~= a);
    } else {
        lemma_window_sum_concat(a, b.drop_last());
        assert((a + b).drop_last() =~= a + b.drop_last());
    }
}

/// The deltas of ticks `1 ..= RATE_WINDOW_SIZE` of `cs`, in tick order:
/// what the window keeps once the first tick's delta has been evicted.
pub open spec fn kept_deltas(cs: Seq<u64>) -> Seq<u64> {
    Seq::new(RATE_WINDOW_SIZE as nat, |k: int| delta_of(cs, k + 1))
}

/// Eviction, stated on the mean: after `RATE_WINDOW_SIZE + 1` ticks the
/// window sum — and so the rolling mean, the sum divided by the window
/// size — reflects exactly the deltas of ticks `1 ..= RATE_WINDOW_SIZE`;
/// the first tick's delta no longer contributes.
pub proof fn lemma_eviction_sum(cs: Seq<u64>)
    requires
        cs.len() == RATE_WINDOW_SIZE + 1,
    ensures
        window_sum(run(cs).window) == window_sum(kept_deltas(cs)),
{
    lemma_window_eviction(cs);
    lemma_run_wf(cs);
    let n = RATE_WINDOW_SIZE as int;
    let w = run(cs).window;
    let d = kept_deltas(cs);
    let pair = seq![d[n - 2], d[n - 1]];
    assert forall|j: int| 0 <= j < n implies w[j] == (pair + d.take(n - 2))[j] by {
        assert(1 <= final_tick_of_slot(j) <= RATE_WINDOW_SIZE);
    }
    assert(w =~= pair + d.take(n - 2));
    assert(d =~= d.take(n - 2) + pair);
    lemma_window_sum_concat(pair, d.take(n - 2));
    lemma_window_sum_concat(d.take(n - 2), pair);
}

/// Windowed sum boundedness: the window sum is between 0 and the window
/// length times any bound on its entries. The rolling mean is the sum
/// divided by the window length, so it lies between 0 and the largest
/// delta held in the window.
pub proof fn lemma_window_sum_bounded(w: Seq<u64>, bound: u64)
    requires
        forall|j: int| 0 <= j < w.len() ==> w[j] <= bound,
    ensures
        0 <= window_sum(w) <= w.len() * bound,
    decreases w.len(),
{
    if w.len() > 0 {
        lemma_window_sum_bounded(w.drop_last(), bound);
        assert(w[w.len() - 1] <= bound);
        assert((w.len() - 1) * bound + bound == w.len() * bound) by (nonlinear_arith);
    }
}

/// Windowed mean boundedness: for a full window whose entries are all at
/// most `bound`, the rolling mean — the window sum divided by the window
/// size — lies between 0 and `bound`, inclusive.
pub proof fn lemma_mean_bounded(w: Seq<u64>, bound: u64)
    requires
        w.len() == RATE_WINDOW_SIZE,
        forall|j: int| 0 <= j < w.len() ==> w[j] <= bound,
    ensures
        0 <= window_sum(w) / (RATE_WINDOW_SIZE as int) <= bound,
{
    lemma_window_sum_bounded(w, bound);
    let n = RATE_WINDOW_SIZE as int;
    lemma_div_is_ordered(0, window_sum(w), n);
    lemma_div_is_ordered(window_sum(w), n * (bound as int), n);
    lemma_mul_is_commutative(n, bound as int);
    lemma_div_multiples_vanish(bound as int, n);
}

} // verus!
