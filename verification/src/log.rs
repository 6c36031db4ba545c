//! The lines of the log.
use vstd::prelude::*;

verus! {

/// How much a log line matters.
#[derive(Clone, Copy, Debug, PartialEq, Eq, Structural)]
pub enum Level {
    Info,
    Warn,
    Error,
    Debug,
}

/// The name of a level as log lines show it.
pub open spec fn level_name(level: Level) -> Seq<char> {
    match level {
        Level::Info => "INFO"@,
        Level::Warn => "WARN"@,
        Level::Error => "ERROR"@,
        Level::Debug => "DEBUG"@,
    }
}

/// The log line for `message` at `level`, written at `timestamp`: the time
/// and the level in brackets, then the message.
pub open spec fn log_line_text(timestamp: Seq<char>, level: Level, message: Seq<char>) -> Seq<char> {
    "["@ + timestamp + "]["@ + level_name(level) + "] "@ + message
}

/// The log line for `message` at `level`, written at `timestamp`.
pub fn log_line(timestamp: &str, level: Level, message: &str) -> (r: String)
    ensures
        r@ == log_line_text(timestamp@, level, message@),
{
    let mut s = "[".to_owned();
    s.append(timestamp);
    s.append("][");
    match level {
        Level::Info => s.append("INFO"),
        Level::Warn => s.append("WARN"),
        Level::Error => s.append("ERROR"),
        Level::Debug => s.append("DEBUG"),
    }
    s.append("] ");
    s.append(message);
    s
}

/// Whether a line at `level` is shown on the terminal as well as written to
/// the log file: all but debug lines are.
pub fn shown_on_terminal(level: Level) -> (r: bool)
    ensures
        r == (level != Level::Debug),
{
    match level {
        Level::Debug => false,
        _ => true,
    }
}

/// Whether a line at `level` goes to the error stream rather than the
/// output stream when shown.
pub fn to_error_stream(level: Level) -> (r: bool)
    ensures
        r == (level == Level::Error),
{
    match level {
        Level::Error => true,
        _ => false,
    }
}

/// The prefix of a log line shown on the terminal.
pub const TERMINAL_PREFIX: &'static str = "[croak]";

} // verus!
