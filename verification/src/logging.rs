//! Log verbosity levels and their mapping to filter directives.

use vstd::prelude::*;

verus! {

/// Verbosity level of the diagnostic output.
#[derive(Debug, Clone, Copy, PartialEq, Eq, Structural)]
pub enum LogLevel {
    Error,
    Warn,
    Info,
    Debug,
    Trace,
}

/// The level that a numeric selector stands for; selectors outside the
/// known range fall back to `Info`.
pub open spec fn level_of_number(level: u8) -> LogLevel {
    if level == 0 || level == 1 {
        LogLevel::Error
    } else if level == 2 {
        LogLevel::Warn
    } else if level == 3 {
        LogLevel::Info
    } else if level == 4 {
        LogLevel::Debug
    } else if level == 5 {
        LogLevel::Trace
    } else {
        LogLevel::Info
    }
}

/// The filter directive that a level stands for.
pub open spec fn filter_of_level(level: LogLevel) -> Seq<char> {
    match level {
        LogLevel::Error => "error"@,
        LogLevel::Warn => "warn"@,
        LogLevel::Info => "info"@,
        LogLevel::Debug => "debug"@,
        LogLevel::Trace => "trace"@,
    }
}

/// The numeric rank of a level.
pub open spec fn number_of_level(level: LogLevel) -> u8 {
    match level {
        LogLevel::Error => 1,
        LogLevel::Warn => 2,
        LogLevel::Info => 3,
        LogLevel::Debug => 4,
        LogLevel::Trace => 5,
    }
}

impl LogLevel {
    /// Convert a numeric selector to a level.
    pub fn from_number(level: u8) -> (r: LogLevel)
        ensures
            r == level_of_number(level),
    {
        match level {
            0 => LogLevel::Error,
            1 => LogLevel::Error,
            2 => LogLevel::Warn,
            3 => LogLevel::Info,
            4 => LogLevel::Debug,
            5 => LogLevel::Trace,
            _ => LogLevel::Info,
        }
    }

    /// The filter directive understood by the logging sink.
    pub fn as_filter(&self) -> (r: &'static str)
        ensures
            r@ == filter_of_level(*self),
    {
        match self {
            LogLevel::Error => "error",
            LogLevel::Warn => "warn",
            LogLevel::Info => "info",
            LogLevel::Debug => "debug",
            LogLevel::Trace => "trace",
        }
    }

    /// The numeric rank of this level.
    pub fn as_number(&self) -> (r: u8)
        ensures
            r == number_of_level(*self),
    {
        match self {
            LogLevel::Error => 1,
            LogLevel::Warn => 2,
            LogLevel::Info => 3,
            LogLevel::Debug => 4,
            LogLevel::Trace => 5,
        }
    }
}

} // verus!
