use podcasts::trace::{LogLevel, TraceFilter};

#[test]
fn higher_levels_always_pass() {
    let filter = TraceFilter::default();
    for level in [LogLevel::Info, LogLevel::Warn, LogLevel::Error] {
        for under_trace_rate in [false, true] {
            for under_debug_rate in [false, true] {
                assert!(filter.is_enabled(level, under_trace_rate, under_debug_rate));
            }
        }
    }
}

#[test]
fn trace_events_pass_under_their_rate() {
    let filter = TraceFilter::default();
    assert!(filter.is_enabled(LogLevel::Trace, true, true));
    assert!(filter.is_enabled(LogLevel::Trace, true, false));
    assert!(!filter.is_enabled(LogLevel::Trace, false, true));
    assert!(!filter.is_enabled(LogLevel::Trace, false, false));
}

#[test]
fn debug_events_pass_under_their_rate() {
    let filter = TraceFilter::default();
    assert!(filter.is_enabled(LogLevel::Debug, true, true));
    assert!(filter.is_enabled(LogLevel::Debug, false, true));
    assert!(!filter.is_enabled(LogLevel::Debug, true, false));
    assert!(!filter.is_enabled(LogLevel::Debug, false, false));
}
