//! How detailed the log is, by verbosity.

use vstd::prelude::*;

verus! {

/// The most detailed level of messages that the log shows.
#[derive(Debug, Clone, Copy, PartialEq, Eq, Structural)]
pub enum LogLevel {
    Error,
    Warn,
    Info,
    Debug,
    Trace,
}

/// The level shown at verbosity `v`: errors at 0, warnings at 1, information at 2,
/// debugging at 3, everything from 4 on.
pub fn max_level(verbosity: u8) -> (l: LogLevel)
    ensures
        verbosity == 0 ==> l == LogLevel::Error,
        verbosity == 1 ==> l == LogLevel::Warn,
        verbosity == 2 ==> l == LogLevel::Info,
        verbosity == 3 ==> l == LogLevel::Debug,
        verbosity >= 4 ==> l == LogLevel::Trace,
{
    match verbosity {
        0 => LogLevel::Error,
        1 => LogLevel::Warn,
        2 => LogLevel::Info,
        3 => LogLevel::Debug,
        _ => LogLevel::Trace,
    }
}

/// Whether every span event is logged; up to verbosity 4 only the opening and closing
/// of spans are.
pub fn full_span_events(verbosity: u8) -> (r: bool)
    ensures
        r == (verbosity > 4),
{
    verbosity > 4
}

} // verus!
