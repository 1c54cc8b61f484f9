//! How much is logged.
use vstd::prelude::*;

verus! {

/// Most verbose level that is still logged.
#[derive(Debug, Clone, Copy, PartialEq, Eq, Structural)]
pub enum Level {
    Error,
    Warn,
    Info,
    Debug,
    Trace,
}

/// The verbosity switches of the command line.
#[derive(Debug, Clone, Copy, PartialEq, Eq, Structural)]
pub struct LoggingOpts {
    /// How often more detail was asked for.
    pub debug: u8,
    /// Only warnings and errors.
    pub warn: bool,
    /// Only errors.
    pub error: bool,
}

impl LoggingOpts {
    /// The level the switches stand for: the quietest switch wins, and
    /// without one every request for detail lowers the threshold by one step,
    /// down to the finest.
    pub open spec fn level(&self) -> Level {
        if self.error {
            Level::Error
        } else if self.warn {
            Level::Warn
        } else if self.debug == 0 {
            Level::Info
        } else if self.debug == 1 {
            Level::Debug
        } else {
            Level::Trace
        }
    }

    /// The level the switches stand for.
    pub fn to_level(&self) -> (out: Level)
        ensures
            out == self.level(),
    {
        if self.error {
            Level::Error
        } else if self.warn {
            Level::Warn
        } else if self.debug == 0 {
            Level::Info
        } else if self.debug == 1 {
            Level::Debug
        } else {
            Level::Trace
        }
    }
}

} // verus!
