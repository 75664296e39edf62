//! The pure line classifier: fixed scenarios, precedence, and the stderr
//! rule.

use meta::logs::{classify, LogLevel, LogMessage};

#[test]
fn classify_panic_is_error() {
    assert_eq!(classify("panic: x"), LogLevel::Error);
}

#[test]
fn classify_trace_is_debug() {
    assert_eq!(classify("trace: y"), LogLevel::Debug);
}

#[test]
fn classify_plain_line_is_info() {
    assert_eq!(classify("listening on 8080"), LogLevel::Info);
}

#[test]
fn classify_is_case_insensitive() {
    assert_eq!(classify("FATAL: out of memory"), LogLevel::Error);
    assert_eq!(classify("VERBOSE output follows"), LogLevel::Debug);
    assert_eq!(classify("WaRnInG: deprecated"), LogLevel::Error);
}

#[test]
fn classify_error_beats_debug() {
    // a failure marker wins over a debug marker in the same line
    assert_eq!(classify("debug: request failed"), LogLevel::Error);
    assert_eq!(classify("trace shows a panic here"), LogLevel::Error);
}

#[test]
fn classify_covers_all_error_keywords() {
    for line in [
        "error", "fail", "panic", "fatal", "exception", "crashed", "segfault", "abort", "warn",
        "warning",
    ] {
        assert_eq!(classify(line), LogLevel::Error, "keyword {line}");
    }
}

#[test]
fn classify_is_deterministic() {
    let line = "some ambiguous warn trace text";
    let first = classify(line);
    for _ in 0..10 {
        assert_eq!(classify(line), first);
    }
}

#[test]
fn stdout_message_takes_classifier_severity() {
    let m = LogMessage::from_stdout(
        "api".to_string(),
        "request failed with 500".to_string(),
        "12:00:00".to_string(),
    );
    assert_eq!(m.level, LogLevel::Error);
    assert_eq!(m.project, "api");
    assert_eq!(m.message, "request failed with 500");
}

#[test]
fn stderr_message_is_always_error() {
    // even a perfectly harmless line is tagged Error when it came via stderr
    let m = LogMessage::from_stderr(
        "web".to_string(),
        "listening on 8080".to_string(),
        "12:00:01".to_string(),
    );
    assert_eq!(m.level, LogLevel::Error);
    assert_eq!(classify("listening on 8080"), LogLevel::Info);
}

#[test]
fn level_str_tags() {
    let mk = |level| LogMessage {
        project: "p".to_string(),
        message: "m".to_string(),
        timestamp: "t".to_string(),
        level,
    };
    assert_eq!(mk(LogLevel::Info).level_str(), "INFO");
    assert_eq!(mk(LogLevel::Error).level_str(), "ERROR");
    assert_eq!(mk(LogLevel::Debug).level_str(), "DEBUG");
}
