//! Severity levels of component log entries.
use vstd::prelude::*;

verus! {

/// How important a log entry is.
#[derive(Clone, Copy, Debug, PartialEq, Eq, Structural)]
pub enum LogLevel {
    Info,
    Warn,
    Error,
    Command,
}

/// The name of a level as the log shows it.
pub open spec fn level_name(l: LogLevel) -> Seq<char> {
    match l {
        LogLevel::Info => "INFO"@,
        LogLevel::Warn => "WARN"@,
        LogLevel::Error => "ERROR"@,
        LogLevel::Command => "COMMAND"@,
    }
}

impl LogLevel {
    /// The level's name: `INFO`, `WARN`, `ERROR` or `COMMAND`.
    pub fn to_string(&self) -> (s: String)
        ensures
            s@ == level_name(*self),
    {
        match self {
            LogLevel::Info => crate::text::owned("INFO"),
            LogLevel::Warn => crate::text::owned("WARN"),
            LogLevel::Error => crate::text::owned("ERROR"),
            LogLevel::Command => crate::text::owned("COMMAND"),
        }
    }
}

} // verus!
