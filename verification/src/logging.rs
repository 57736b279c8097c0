//! The log's line format and its rotation rule. The log files themselves
//! are written at the application's edge.
use vstd::prelude::*;

use crate::domain::{format_rfc3339, rfc3339_text};
use crate::text::{owned, push_str};

verus! {

/// The current log file, in the data directory.
pub const LOG_FILE_NAME: &'static str = "latchnott.log";

/// The one rotated log file, next to the current one.
pub const ROTATED_LOG_FILE_NAME: &'static str = "latchnott.log.1";

/// The size, in bytes, past which the log is rotated.
pub const MAX_LOG_SIZE: u64 = 1024 * 1024;

/// What stands in a line's time when the clock cannot be written out.
pub const UNKNOWN_TIME: &'static str = "unknown-time";

/// The severity of a log line.
#[derive(Debug, Clone, Copy, PartialEq, Eq)]
pub enum LogLevel {
    Info,
    Warn,
    Error,
}

pub open spec fn level_text(level: LogLevel) -> Seq<char> {
    match level {
        LogLevel::Info => "INFO"@,
        LogLevel::Warn => "WARN"@,
        LogLevel::Error => "ERROR"@,
    }
}

impl LogLevel {
    /// The level's name in a log line.
    pub fn as_str(self) -> (r: &'static str)
        ensures
            r@ == level_text(self),
    {
        match self {
            LogLevel::Info => "INFO",
            LogLevel::Warn => "WARN",
            LogLevel::Error => "ERROR",
        }
    }
}

/// A log line: `[<time>] [<LEVEL>] <message>` and a line feed.
pub open spec fn log_line(timestamp: Seq<char>, level: LogLevel, message: Seq<char>) -> Seq<char> {
    "["@ + timestamp + "] ["@ + level_text(level) + "] "@ + message + "\n"@
}

/// Builds a log line. The line holds the message exactly as given and
/// nothing else but the time and the level.
pub fn format_log_line(timestamp: &str, level: LogLevel, message: &str) -> (r: String)
    ensures
        r@ == log_line(timestamp@, level, message@),
{
    let mut line = owned("[");
    push_str(&mut line, timestamp);
    push_str(&mut line, "] [");
    push_str(&mut line, level.as_str());
    push_str(&mut line, "] ");
    push_str(&mut line, message);
    push_str(&mut line, "\n");
    line
}

/// The line written when rotation fails.
pub fn rotation_failure_line(timestamp: &str, error: &str) -> (r: String)
    ensures
        r@ == "["@ + timestamp@ + "] [ERROR] failed to rotate log: "@ + error@ + "\n"@,
{
    let mut line = owned("[");
    push_str(&mut line, timestamp);
    push_str(&mut line, "] [ERROR] failed to rotate log: ");
    push_str(&mut line, error);
    push_str(&mut line, "\n");
    line
}

/// The time of a log line: the RFC 3339 form of `now`, or `unknown-time`.
pub fn log_timestamp(now: time::OffsetDateTime) -> (r: String)
    ensures
        r@ == match rfc3339_text(now) {
            Some(text) => text,
            None => UNKNOWN_TIME@,
        },
{
    match format_rfc3339(now) {
        Ok(text) => text,
        Err(_) => owned(UNKNOWN_TIME),
    }
}

/// Whether writing `incoming_size` more bytes onto a log of
/// `current_size` bytes must first rotate it: whenever the sum would pass
/// `MAX_LOG_SIZE`.
pub fn needs_rotation(current_size: u64, incoming_size: u64) -> (r: bool)
    ensures
        r == (current_size + incoming_size > MAX_LOG_SIZE),
{
    current_size.saturating_add(incoming_size) > MAX_LOG_SIZE
}

/// A log line names its level in upper case, `INFO`, `WARN` or `ERROR`,
/// between the time and the message, so lines of different levels differ.
pub proof fn lemma_log_line_names_its_level(timestamp: Seq<char>, message: Seq<char>)
    ensures
        log_line(timestamp, LogLevel::Info, message) == "["@ + timestamp + "] [INFO] "@ + message
            + "\n"@,
        log_line(timestamp, LogLevel::Warn, message) == "["@ + timestamp + "] [WARN] "@ + message
            + "\n"@,
        log_line(timestamp, LogLevel::Error, message) == "["@ + timestamp + "] [ERROR] "@
            + message + "\n"@,
        forall|a: LogLevel, b: LogLevel|
            log_line(timestamp, a, message) == log_line(timestamp, b, message) ==> a == b,
{
    reveal_strlit("[");
    reveal_strlit("] [");
    reveal_strlit("] ");
    reveal_strlit("\n");
    reveal_strlit("INFO");
    reveal_strlit("WARN");
    reveal_strlit("ERROR");
    reveal_strlit("] [INFO] ");
    reveal_strlit("] [WARN] ");
    reveal_strlit("] [ERROR] ");
    let head = "["@ + timestamp;
    assert(log_line(timestamp, LogLevel::Info, message) =~= "["@ + timestamp + "] [INFO] "@
        + message + "\n"@);
    assert(log_line(timestamp, LogLevel::Warn, message) =~= "["@ + timestamp + "] [WARN] "@
        + message + "\n"@);
    assert(log_line(timestamp, LogLevel::Error, message) =~= "["@ + timestamp + "] [ERROR] "@
        + message + "\n"@);
    assert forall|a: LogLevel, b: LogLevel|
        log_line(timestamp, a, message) == log_line(timestamp, b, message) implies a == b by {
        let la = log_line(timestamp, a, message);
        let lb = log_line(timestamp, b, message);
        let k: int = head.len() as int + 3;
        assert(la[k] == level_text(a)[0]);
        assert(lb[k] == level_text(b)[0]);
        assert(la[k + 1] == level_text(a)[1]);
        assert(lb[k + 1] == level_text(b)[1]);
    }
}

} // verus!
