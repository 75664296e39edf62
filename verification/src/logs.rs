//! Log severities and the pure line classifier.
//!
//! Every output line of a supervised process becomes a [`LogMessage`].  A
//! stdout line is classified by [`classify`], a case-insensitive substring
//! heuristic with a fixed precedence: failure markers (warnings included, for
//! visibility) win over debug markers, and everything else is plain info.  A
//! stderr line is always tagged [`LogLevel::Error`], whatever its text says.

use vstd::prelude::*;

use crate::text::{chars_of, contains_chars, contains_seq, lower, to_lower};

verus! {

/// The severity of one log line.
#[derive(Debug, Clone, Copy, PartialEq, Eq, Structural)]
pub enum LogLevel {
    Info,
    Error,
    Debug,
}

/// One classified output line of a supervised process.
#[derive(Debug, Clone)]
pub struct LogMessage {
    /// The project whose process produced the line.
    pub project: String,
    /// The text of the line.
    pub message: String,
    /// Wall-clock capture time, second precision.
    pub timestamp: String,
    /// The severity assigned at capture.
    pub level: LogLevel,
}

/// The (lowercased) line carries a failure or warning marker.
pub open spec fn has_error_marker(l: Seq<char>) -> bool {
    contains_seq(l, "error"@) || contains_seq(l, "fail"@) || contains_seq(l, "panic"@)
        || contains_seq(l, "fatal"@) || contains_seq(l, "exception"@) || contains_seq(
        l,
        "crashed"@,
    ) || contains_seq(l, "segfault"@) || contains_seq(l, "abort"@) || contains_seq(l, "✗"@)
        || contains_seq(l, "❌"@) || contains_seq(l, "warn"@)
}

/// The (lowercased) line carries a debug marker.
pub open spec fn has_debug_marker(l: Seq<char>) -> bool {
    contains_seq(l, "debug"@) || contains_seq(l, "trace"@) || contains_seq(l, "verbose"@)
}

/// What [`classify`] returns on a line: failure markers first, then debug
/// markers, otherwise info.
pub open spec fn spec_classify(line: Seq<char>) -> LogLevel {
    if has_error_marker(lower(line)) {
        LogLevel::Error
    } else if has_debug_marker(lower(line)) {
        LogLevel::Debug
    } else {
        LogLevel::Info
    }
}

/// Classify one raw output line.  Pure and total: the result depends on the
/// characters of the line alone.
pub fn classify(line: &str) -> (r: LogLevel)
    ensures
        r == spec_classify(line@),
{
    let cs = chars_of(line);
    let l = to_lower(&cs);
    let err = contains_chars(&l, &chars_of("error")) || contains_chars(&l, &chars_of("fail"))
        || contains_chars(&l, &chars_of("panic")) || contains_chars(&l, &chars_of("fatal"))
        || contains_chars(&l, &chars_of("exception")) || contains_chars(&l, &chars_of("crashed"))
        || contains_chars(&l, &chars_of("segfault")) || contains_chars(&l, &chars_of("abort"))
        || contains_chars(&l, &chars_of("✗")) || contains_chars(&l, &chars_of("❌"))
        || contains_chars(&l, &chars_of("warn"));
    if err {
        LogLevel::Error
    } else {
        let dbg = contains_chars(&l, &chars_of("debug")) || contains_chars(&l, &chars_of("trace"))
            || contains_chars(&l, &chars_of("verbose"));
        if dbg {
            LogLevel::Debug
        } else {
            LogLevel::Info
        }
    }
}

/// A failure marker always takes precedence: a line that matches one is
/// classified `Error`, whatever else (a debug marker included) it contains.
pub proof fn lemma_error_marker_wins(line: Seq<char>)
    requires
        has_error_marker(lower(line)),
    ensures
        spec_classify(line) == LogLevel::Error,
{
}

/// A line without failure and without debug markers is plain info.
pub proof fn lemma_unmarked_line_is_info(line: Seq<char>)
    requires
        !has_error_marker(lower(line)),
        !has_debug_marker(lower(line)),
    ensures
        spec_classify(line) == LogLevel::Info,
{
}

impl LogMessage {
    /// A message captured from a process's stdout: the severity is exactly
    /// what the classifier says of the text.
    pub fn from_stdout(project: String, message: String, timestamp: String) -> (r: LogMessage)
        ensures
            r.project == project,
            r.message == message,
            r.timestamp == timestamp,
            r.level == spec_classify(message@),
    {
        let level = classify(message.as_str());
        LogMessage { project, message, timestamp, level }
    }

    /// A message captured from a process's stderr: tagged `Error` regardless
    /// of what the classifier would say of the text.
    pub fn from_stderr(project: String, message: String, timestamp: String) -> (r: LogMessage)
        ensures
            r.project == project,
            r.message == message,
            r.timestamp == timestamp,
            r.level == LogLevel::Error,
    {
        LogMessage { project, message, timestamp, level: LogLevel::Error }
    }

    /// An identical copy.
    pub fn duplicate(&self) -> (r: LogMessage)
        ensures
            r == *self,
    {
        LogMessage {
            project: self.project.clone(),
            message: self.message.clone(),
            timestamp: self.timestamp.clone(),
            level: self.level,
        }
    }

    /// The fixed tag used when a message is exported.
    pub fn level_str(&self) -> (r: &'static str)
        ensures
            self.level == LogLevel::Info ==> r@ == "INFO"@,
            self.level == LogLevel::Error ==> r@ == "ERROR"@,
            self.level == LogLevel::Debug ==> r@ == "DEBUG"@,
    {
        match self.level {
            LogLevel::Info => "INFO",
            LogLevel::Error => "ERROR",
            LogLevel::Debug => "DEBUG",
        }
    }
}

} // verus!
