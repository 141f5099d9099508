//! A frame-synchronous instrumentation overlay: it counts calls into an
//! intercepted host routine, samples a block of raw host state, aggregates a
//! per-frame call rate over a fixed sliding window, and renders everything as
//! plain text lines for an on-screen diagnostic console.
//!
//! This crate holds the verified core: the monotonic call counter, the
//! rate aggregator with its circular window, and the text formatting for the
//! console lines. The unverified embedding (the call hook itself, the raw
//! memory read, the console writes and the frame loop) lives outside.

pub mod counter;
pub mod display;
pub mod interceptor;
pub mod rate;
