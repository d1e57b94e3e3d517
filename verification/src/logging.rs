//! Which log level the service runs at.

use std::str::FromStr;
use vstd::prelude::*;
use crate::config::ConfigArgs;
use crate::text::parse_index;

verus! {

/// A log level, from the least to the most verbose.
#[derive(Debug, Clone, Copy, PartialEq, Eq, Structural)]
pub enum LogLevel {
    Error,
    Warn,
    Info,
    Debug,
    Trace,
}

/// The level of a service that was given none.
pub open spec fn default_log_level() -> LogLevel {
    LogLevel::Info
}

/// An ASCII letter in lower case; any other character as it is.
pub open spec fn ascii_lower(c: char) -> char {
    if 'A' <= c && c <= 'Z' {
        ((c as u8) + 32) as char
    } else {
        c
    }
}

/// Whether two texts are the same but for the case of ASCII letters.
pub open spec fn same_ignoring_ascii_case(a: Seq<char>, b: Seq<char>) -> bool {
    &&& a.len() == b.len()
    &&& forall|i: int| 0 <= i < a.len() ==> ascii_lower(#[trigger] a[i]) == ascii_lower(b[i])
}

/// The level that a text names: a number from 1 (errors only) to 5
/// (everything), or the name of the level in any mix of upper and lower
/// case.
pub open spec fn level_of_text(text: Seq<char>) -> Option<LogLevel> {
    if parse_index(text) == Some(1usize) {
        Some(LogLevel::Error)
    } else if parse_index(text) == Some(2usize) {
        Some(LogLevel::Warn)
    } else if parse_index(text) == Some(3usize) {
        Some(LogLevel::Info)
    } else if parse_index(text) == Some(4usize) {
        Some(LogLevel::Debug)
    } else if parse_index(text) == Some(5usize) {
        Some(LogLevel::Trace)
    } else if same_ignoring_ascii_case(text, "error"@) {
        Some(LogLevel::Error)
    } else if same_ignoring_ascii_case(text, "warn"@) {
        Some(LogLevel::Warn)
    } else if same_ignoring_ascii_case(text, "info"@) {
        Some(LogLevel::Info)
    } else if same_ignoring_ascii_case(text, "debug"@) {
        Some(LogLevel::Debug)
    } else if same_ignoring_ascii_case(text, "trace"@) {
        Some(LogLevel::Trace)
    } else {
        None
    }
}

/// Trusted: reads a level with `tracing::Level::from_str`. That function
/// first reads the text as a `usize` and takes 1 to 5 as the five levels,
/// from `ERROR` to `TRACE`; failing that, it compares the text with the five
/// names, ignoring the case of ASCII letters. The five constants of
/// `tracing::Level` are turned into the five variants of [`LogLevel`].
#[verifier::external_body]
fn parse_level(text: &str) -> (level: Option<LogLevel>)
    ensures
        level == level_of_text(text@),
{
    let level = tracing::Level::from_str(text).ok()?;
    Some(match level {
        tracing::Level::ERROR => LogLevel::Error,
        tracing::Level::WARN => LogLevel::Warn,
        tracing::Level::INFO => LogLevel::Info,
        tracing::Level::DEBUG => LogLevel::Debug,
        tracing::Level::TRACE => LogLevel::Trace,
    })
}

/// The level that the environment asks for: the one that `configured`
/// names, and the default where it is absent or names none.
pub fn log_level(configured: Option<&str>) -> (level: LogLevel)
    ensures
        level == match configured {
            Some(text) => match level_of_text(text@) {
                Some(named) => named,
                None => default_log_level(),
            },
            None => default_log_level(),
        },
{
    match configured {
        Some(text) => match parse_level(text) {
            Some(named) => named,
            None => LogLevel::Info,
        },
        None => LogLevel::Info,
    }
}

/// How logging is set up.
#[derive(Debug, Clone, Copy, PartialEq, Eq, Structural)]
pub struct LogSetup {
    /// The level at which the service logs.
    pub level: LogLevel,
    /// Whether the libraries for the store and the bus are kept silent.
    pub quiet_libraries: bool,
}

/// How logging is set up: at the level given on the command line, else at
/// the one that the environment asks for; the libraries are kept silent
/// unless everything is traced.
pub fn log_setup(args: &ConfigArgs, configured: Option<&str>) -> (setup: LogSetup)
    ensures
        setup.level == match args.log_level {
            Some(level) => level,
            None => match configured {
                Some(text) => match level_of_text(text@) {
                    Some(named) => named,
                    None => default_log_level(),
                },
                None => default_log_level(),
            },
        },
        setup.quiet_libraries == (setup.level != LogLevel::Trace),
{
    let level = match args.log_level {
        Some(level) => level,
        None => log_level(configured),
    };
    LogSetup { level, quiet_libraries: level != LogLevel::Trace }
}

} // verus!
