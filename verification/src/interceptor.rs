//! The observational core of the two host-driven call sites: the call
//! interceptor, which runs on every intercepted call, and the frame tick
//! handler, which runs once per display frame. Both only compute: the
//! embedding performs the raw memory read beforehand and the console writes
//! afterwards.

use crate::counter::CallCounter;
use crate::display::ConsoleLine;
use crate::display::DisplayUpdate;
use crate::display::count_line;
use crate::display::rate_line;
use crate::display::spec_count_line;
use crate::display::spec_rate_line;
use crate::display::spec_state_line;
use crate::display::state_line;
use crate::rate::RateAggregator;
use crate::rate::spec_tick;
use crate::rate::window_sum;
use vstd::prelude::*;

verus! {

/// A snapshot of the fixed-layout block of host state: three unsigned
/// machine-word fields, displayed verbatim. The host owns and mutates the
/// underlying memory; reading it at the configured address is the
/// embedding's unchecked obligation, and this type only carries the copied
/// values.
#[derive(Clone, Copy, PartialEq, Eq, Structural, Debug)]
pub struct RawState {
    pub r0: u64,
    pub r1: u64,
    pub r2: u64,
}

/// The call interceptor's computation, run once per intercepted call:
/// record the call on the counter and format the new count and the three
/// raw-state fields for their console channels. The host's value passes
/// through unchanged — the interceptor is purely observational and returns
/// exactly what it was given.
pub fn on_call<T>(counter: &mut CallCounter, state: &RawState, passthrough: T) -> (r: (
    T,
    Vec<DisplayUpdate>,
))
    requires
        old(counter)@ < u64::MAX,
    ensures
        r.0 == passthrough,
        final(counter)@ == old(counter)@ + 1,
        r.1@.len() == 4,
        r.1@[0].line == ConsoleLine::RngCallCount,
        r.1@[0].text@ == spec_count_line(final(counter)@),
        r.1@[1].line == ConsoleLine::RngState0,
        r.1@[1].text@ == spec_state_line(0, state.r0 as nat),
        r.1@[2].line == ConsoleLine::RngState1,
        r.1@[2].text@ == spec_state_line(1, state.r1 as nat),
        r.1@[3].line == ConsoleLine::RngState2,
        r.1@[3].text@ == spec_state_line(2, state.r2 as nat),
{
    let count = counter.increment();
    let mut updates: Vec<DisplayUpdate> = Vec::new();
    updates.push(DisplayUpdate { line: ConsoleLine::RngCallCount, text: count_line(count) });
    updates.push(DisplayUpdate { line: ConsoleLine::RngState0, text: state_line(0, state.r0) });
    updates.push(DisplayUpdate { line: ConsoleLine::RngState1, text: state_line(1, state.r1) });
    updates.push(DisplayUpdate { line: ConsoleLine::RngState2, text: state_line(2, state.r2) });
    (passthrough, updates)
}

/// Per-loop frame state: the diagnostic frame counter, created once when the
/// frame loop starts and bumped once per tick.
pub struct FrameState {
    pub frame_count: u32,
}

impl FrameState {
    /// Frame state at the start of the loop.
    pub fn new() -> (r: Self)
        ensures
            r.frame_count == 0,
    {
        FrameState { frame_count: 0 }
    }
}

/// The frame tick handler's computation, run once per display frame with the
/// freshly sampled cumulative call count: bump the diagnostic frame counter
/// (wrapping, so the tick can never fail), feed the aggregator, and format
/// the per-frame delta line. Returns the delta, the window sum — the rolling
/// mean shown on the average channel is the sum divided by
/// `RATE_WINDOW_SIZE` — and the formatted delta line.
pub fn frame_tick(fs: &mut FrameState, agg: &mut RateAggregator, current: u64) -> (r: (
    u64,
    u128,
    Vec<DisplayUpdate>,
))
    requires
        old(agg).wf(),
        old(agg)@.prev <= current,
    ensures
        final(fs).frame_count == if old(fs).frame_count < u32::MAX {
            old(fs).frame_count + 1
        } else {
            0
        },
        final(agg).wf(),
        final(agg)@ == spec_tick(old(agg)@, current),
        r.0 == current - old(agg)@.prev,
        r.1 == window_sum(final(agg)@.window),
        r.2@.len() == 1,
        r.2@[0].line == ConsoleLine::RngCallRateFrame,
        r.2@[0].text@ == spec_rate_line(r.0 as nat),
{
    fs.frame_count = fs.frame_count.wrapping_add(1);
    let (delta, sum) = agg.tick(current);
    let mut updates: Vec<DisplayUpdate> = Vec::new();
    updates.push(DisplayUpdate { line: ConsoleLine::RngCallRateFrame, text: rate_line(delta) });
    (delta, sum, updates)
}

} // verus!
