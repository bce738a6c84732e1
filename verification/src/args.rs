//! The command line of the service.

use vstd::prelude::*;

verus! {

/// How log lines are written on stderr.
#[derive(Debug, Clone, Copy, PartialEq, Eq, Structural)]
pub enum LogFormat {
    Compact,
    Pretty,
    JSON,
}

/// The command line: verbosity, log format, and the configuration file.
#[derive(Debug)]
pub struct Args {
    pub verbosity: u8,
    pub log_format: LogFormat,
    pub config: String,
}

} // verus!
