//! Which log events pass.
//!
//! Events at the two most verbose levels are sampled: only a small share of
//! them passes. The draw that samples them is made by the caller, once for
//! each event, and compared with one rate for each of the two levels.

use vstd::prelude::*;

verus! {

/// The level of a log event, from the most verbose to the least.
#[derive(Debug, Clone, Copy, PartialEq, Eq, Structural)]
pub enum LogLevel {
    Trace,
    Debug,
    Info,
    Warn,
    Error,
}

/// The filter of the log.
#[derive(Debug)]
pub struct TraceFilter {}

impl Default for TraceFilter {
    fn default() -> Self {
        TraceFilter {  }
    }
}

/// Whether an event at `level` passes, where `under_trace_rate` and
/// `under_debug_rate` say whether the draw for this event fell under the rate
/// of the level `Trace` and of the level `Debug`.
pub open spec fn passes(level: LogLevel, under_trace_rate: bool, under_debug_rate: bool) -> bool {
    match level {
        LogLevel::Trace => under_trace_rate,
        LogLevel::Debug => under_debug_rate,
        _ => true,
    }
}

impl TraceFilter {
    /// Decides whether an event at `level` passes.
    pub fn is_enabled(&self, level: LogLevel, under_trace_rate: bool, under_debug_rate: bool) -> (r:
        bool)
        ensures
            r == passes(level, under_trace_rate, under_debug_rate),
    {
        match level {
            LogLevel::Trace => under_trace_rate,
            LogLevel::Debug => under_debug_rate,
            _ => true,
        }
    }
}

} // verus!
