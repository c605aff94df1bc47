//! How much the process logs.

use vstd::prelude::*;

verus! {

/// The two levels the process logs at.
#[derive(Clone, Copy, Debug, PartialEq, Eq, Structural)]
pub enum LogLevel {
    Debug,
    Info,
}

/// The level that a setting asks for, the setting given in lower case:
/// `debug`, `verbose` and `trace` ask for [`LogLevel::Debug`], anything else
/// for [`LogLevel::Info`].
pub open spec fn level_of(setting: Seq<char>) -> LogLevel {
    if setting == "debug"@ || setting == "verbose"@ || setting == "trace"@ {
        LogLevel::Debug
    } else {
        LogLevel::Info
    }
}

/// The level that a setting asks for, the setting given in lower case.
pub fn log_level_for(setting: &str) -> (level: LogLevel)
    ensures
        level == level_of(setting@),
{
    let given = setting.to_string();
    if given == "debug".to_string() || given == "verbose".to_string() || given
        == "trace".to_string() {
        LogLevel::Debug
    } else {
        LogLevel::Info
    }
}

impl LogLevel {
    /// The name a level is announced by.
    pub fn name(self) -> (text: &'static str)
        ensures
            text@ == match self {
                LogLevel::Debug => "DEBUG"@,
                LogLevel::Info => "INFO"@,
            },
    {
        match self {
            LogLevel::Debug => "DEBUG",
            LogLevel::Info => "INFO",
        }
    }
}

} // verus!
