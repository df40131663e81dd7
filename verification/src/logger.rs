//! Log levels and the logger handle.
//!
//! The handle only carries a component name and the verbosity level it
//! logs at; formatting timestamps and printing are I/O and live outside
//! the library.

use vstd::prelude::*;

verus! {

/// Log levels, in increasing verbosity: a logger at some level prints
/// messages of that level and of the levels before it.
#[derive(Debug, PartialEq, Eq, PartialOrd, Clone, Copy, Structural)]
pub enum LogLevel {
    Error,
    Info,
    Debug,
}

/// A named logging handle with a verbosity level.
pub struct Logger {
    pub c_name: &'static str,
    pub level: LogLevel,
}

impl Logger {
    pub fn new(c_name: &'static str, level: LogLevel) -> (r: Logger)
        ensures
            r.c_name@ == c_name@,
            r.level == level,
    {
        Logger { c_name, level }
    }
}

} // verus!
