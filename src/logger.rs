use vstd::prelude::*;
use crate::encoding::concat_str;

verus! {

/// Severity of a log record, most severe first.
#[derive(Debug, Clone, Copy, PartialEq, Eq, Structural)]
pub enum LogLevel {
    Error,
    Warn,
    Info,
    Debug,
    Trace,
}

/// Rank of a level: lower is more severe.
pub open spec fn level_rank(level: LogLevel) -> nat {
    match level {
        LogLevel::Error => 1,
        LogLevel::Warn => 2,
        LogLevel::Info => 3,
        LogLevel::Debug => 4,
        LogLevel::Trace => 5,
    }
}

/// The level that a configuration name selects; an unknown name selects `Debug`.
pub open spec fn level_named(name: Seq<char>) -> LogLevel {
    if name == "debug"@ {
        LogLevel::Debug
    } else if name == "info"@ {
        LogLevel::Info
    } else if name == "error"@ {
        LogLevel::Error
    } else if name == "trace"@ {
        LogLevel::Trace
    } else if name == "warn"@ {
        LogLevel::Warn
    } else {
        LogLevel::Debug
    }
}

/// The text that starts a log line of a level.
pub open spec fn level_prefix(level: LogLevel) -> Seq<char> {
    match level {
        LogLevel::Error => "🚨 ERROR - "@,
        LogLevel::Info => "🔵 INFO - "@,
        LogLevel::Warn => "⚠️ WARNING - "@,
        LogLevel::Debug => "🛠 DEBUG - "@,
        LogLevel::Trace => "🔮 TRACE - "@,
    }
}

/// Whether two texts are equal.
pub fn str_equal(a: &str, b: &str) -> (r: bool)
    ensures
        r == (a@ == b@),
{
    let n = a.unicode_len();
    if n != b.unicode_len() {
        return false;
    }
    let mut i: usize = 0;
    while i < n
        invariant
            0 <= i <= n,
            n == a@.len(),
            n == b@.len(),
            forall|j: int| 0 <= j < i ==> a@[j] == b@[j],
        decreases n - i,
    {
        if a.get_char(i) != b.get_char(i) {
            return false;
        }
        i += 1;
    }
    assert(a@ =~= b@);
    true
}

/// The level that a configuration name selects; an unknown name selects `Debug`.
pub fn parse_log_level(name: &str) -> (r: LogLevel)
    ensures
        r == level_named(name@),
{
    if str_equal(name, "debug") {
        LogLevel::Debug
    } else if str_equal(name, "info") {
        LogLevel::Info
    } else if str_equal(name, "error") {
        LogLevel::Error
    } else if str_equal(name, "trace") {
        LogLevel::Trace
    } else if str_equal(name, "warn") {
        LogLevel::Warn
    } else {
        LogLevel::Debug
    }
}

/// The core's log sink: it passes records of level `Info` and more severe, one
/// line each, led by a marker of the level.
pub struct Logger;

impl Logger {
    /// Whether records of a level are written.
    pub fn enabled(&self, level: LogLevel) -> (r: bool)
        ensures
            r == (level_rank(level) <= level_rank(LogLevel::Info)),
    {
        match level {
            LogLevel::Error | LogLevel::Warn | LogLevel::Info => true,
            LogLevel::Debug | LogLevel::Trace => false,
        }
    }

    /// The line written for a record.
    pub fn log(&self, level: LogLevel, text: &str) -> (r: String)
        ensures
            r@ == level_prefix(level) + text@,
    {
        let prefix = match level {
            LogLevel::Error => "🚨 ERROR - ",
            LogLevel::Info => "🔵 INFO - ",
            LogLevel::Warn => "⚠️ WARNING - ",
            LogLevel::Debug => "🛠 DEBUG - ",
            LogLevel::Trace => "🔮 TRACE - ",
        };
        concat_str(prefix, text)
    }
}

} // verus!
