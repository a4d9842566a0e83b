//! Log levels.

use vstd::prelude::*;

verus! {

/// Log level.
#[derive(Clone, Copy, Debug, PartialEq, Eq, Hash, PartialOrd, Ord, Structural)]
pub enum Level {
    /// Trace
    Trace,
    /// Information
    Info,
    /// Warning
    Warn,
    /// Error
    Error,
}

impl Level {
    /// The five-character prefix of a log line at this level.
    pub open spec fn prefix(&self) -> Seq<char> {
        match self {
            Level::Trace => "TRACE"@,
            Level::Info => "INFO "@,
            Level::Warn => "WARN "@,
            Level::Error => "ERROR"@,
        }
    }

    /// Returns the logging prefix of `self`.
    pub fn as_prefix(&self) -> (r: &'static str)
        ensures
            r@ == self.prefix(),
    {
        match self {
            Level::Trace => "TRACE",
            Level::Info => "INFO ",
            Level::Warn => "WARN ",
            Level::Error => "ERROR",
        }
    }
}

} // verus!
