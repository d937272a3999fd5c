//! Levels and layout of the daemon's log lines.
use vstd::prelude::*;
use std::sync::atomic::{AtomicU8, Ordering};

verus! {

/// Log levels, from silent to most verbose.
#[derive(Clone, Copy, Debug, PartialEq, Eq, Structural)]
pub enum LogLevel {
    Off,
    Error,
    Warn,
    Info,
    Debug,
}

/// Numeric value of a level: 0 for `Off` up to 4 for `Debug`.
pub open spec fn level_code(l: LogLevel) -> u8 {
    match l {
        LogLevel::Off => 0,
        LogLevel::Error => 1,
        LogLevel::Warn => 2,
        LogLevel::Info => 3,
        LogLevel::Debug => 4,
    }
}

impl LogLevel {
    /// Numeric value of the level, as kept in the global threshold.
    pub fn code(&self) -> (c: u8)
        ensures
            c == level_code(*self),
    {
        match self {
            LogLevel::Off => 0,
            LogLevel::Error => 1,
            LogLevel::Warn => 2,
            LogLevel::Info => 3,
            LogLevel::Debug => 4,
        }
    }
}

/// A message of level `level` is shown under the threshold `max`.
pub open spec fn shown(level: LogLevel, max: u8) -> bool {
    level_code(level) <= max
}

/// Whether a message of level `level` passes the threshold `max` (a level code).
pub fn should_log(level: LogLevel, max: u8) -> (r: bool)
    ensures
        r == shown(level, max),
{
    level.code() <= max
}

/// The journal prefix, colour escape and label of a level.
pub open spec fn level_decor(l: LogLevel) -> (Seq<char>, Seq<char>, Seq<char>) {
    match l {
        LogLevel::Error => ("<3>"@, "\x1b[31m"@, "ERROR"@),
        LogLevel::Warn => ("<4>"@, "\x1b[33m"@, "WARN "@),
        LogLevel::Info => ("<6>"@, "\x1b[32m"@, "INFO "@),
        _ => ("<7>"@, "\x1b[36m"@, "DEBUG"@),
    }
}

/// A log line: journal prefix, colour, `[LABEL]`, colour reset, module, message.
pub open spec fn log_line(level: LogLevel, module: Seq<char>, msg: Seq<char>) -> Seq<char> {
    let (prefix, color, label) = level_decor(level);
    prefix + color + " ["@ + label + "] \x1b[0m"@ + module + ": "@ + msg
}

/// Lay out the line that reports `msg` of `module` at `level`.
pub fn format_log_line(level: LogLevel, module: &str, msg: &str) -> (r: String)
    requires
        level != LogLevel::Off,
    ensures
        r@ == log_line(level, module@, msg@),
{
    let mut s = match level {
        LogLevel::Error => {
            let mut s = String::from_str("<3>");
            s.append("\x1b[31m");
            s.append(" [");
            s.append("ERROR");
            s
        },
        LogLevel::Warn => {
            let mut s = String::from_str("<4>");
            s.append("\x1b[33m");
            s.append(" [");
            s.append("WARN ");
            s
        },
        LogLevel::Info => {
            let mut s = String::from_str("<6>");
            s.append("\x1b[32m");
            s.append(" [");
            s.append("INFO ");
            s
        },
        _ => {
            let mut s = String::from_str("<7>");
            s.append("\x1b[36m");
            s.append(" [");
            s.append("DEBUG");
            s
        },
    };
    s.append("] \x1b[0m");
    s.append(module);
    s.append(": ");
    s.append(msg);
    s
}

/// Set the threshold `threshold` (the process-wide log level) to `level`.
pub fn set_max_log_level(threshold: &AtomicU8, level: LogLevel) {
    threshold.store(level.code(), Ordering::SeqCst);
}

} // verus!
