//! The console of a running function: what a call of it is logged as.

use vstd::prelude::*;
use vstd::string::StringExecFns;
use crate::text::same_text;

verus! {

/// The source that every record of the console is logged under.
pub const CONSOLE_SOURCE: &'static str = "console";

/// How grave a record is.
#[derive(Clone, Copy, Debug, PartialEq, Eq, Structural)]
pub enum Level {
    Debug,
    Info,
    Warn,
    Error,
}

/// One line for the log: what a function said, and which function of which
/// deployment said it.
#[derive(Debug)]
pub struct ConsoleRecord {
    pub level: Level,
    pub source: String,
    pub deployment: String,
    pub function: String,
    pub message: String,
}

/// The level that a console method logs at: its own for `debug`, `warn` and
/// `error`, and `Info` for every other.
pub open spec fn level_of(name: Seq<char>) -> Level {
    if name == "debug"@ {
        Level::Debug
    } else if name == "warn"@ {
        Level::Warn
    } else if name == "error"@ {
        Level::Error
    } else {
        Level::Info
    }
}

/// What a call of the console is logged as. `level` is the name of the
/// method that was called, `metadata` the deployment and the function that
/// the isolate runs, where it runs one; without them nothing is logged.
pub fn console_binding(level: &str, message: String, metadata: Option<(String, String)>) -> (record:
    Option<ConsoleRecord>)
    ensures
        match metadata {
            Some((deployment, function)) => record matches Some(line) && line.level == level_of(
                level@,
            ) && line.source@ == CONSOLE_SOURCE@ && line.deployment == deployment && line.function
                == function && line.message == message,
            None => record is None,
        },
{
    match metadata {
        Some((deployment, function)) => {
            let level = if same_text(level, "debug") {
                Level::Debug
            } else if same_text(level, "warn") {
                Level::Warn
            } else if same_text(level, "error") {
                Level::Error
            } else {
                Level::Info
            };
            Some(
                ConsoleRecord {
                    level,
                    source: String::from_str(CONSOLE_SOURCE),
                    deployment,
                    function,
                    message,
                },
            )
        },
        None => None,
    }
}

} // verus!
