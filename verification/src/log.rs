//! The kinds of log lines and dashboards the commands show.
use vstd::prelude::*;

verus! {

/// Which command a dashboard belongs to.
#[derive(Debug, Clone, Copy, PartialEq, Eq, Structural)]
pub enum LogType {
    Init,
    Check,
    Install,
    Config,
    Studio,
    Wasm,
    Unknown,
}

/// Dashboards are labelled by the command they show.
pub type CommandType = LogType;

impl LogType {
    pub fn is_unknown(&self) -> (b: bool)
        ensures
            b == (*self == LogType::Unknown),
    {
        matches!(self, LogType::Unknown)
    }
}

/// How a log line is shown.
#[derive(Debug, Clone, Copy, PartialEq, Eq, Structural)]
pub enum LogLevel {
    Info,
    Success,
    Warning,
    Error,
}

} // verus!
