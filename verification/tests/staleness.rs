//! Elapsed-time parsing and the staleness threshold.

use meta::etime::{check_staleness, is_stale, parse_etime};

#[test]
fn etime_minutes_seconds() {
    assert_eq!(parse_etime("02:30"), Some(150));
}

#[test]
fn etime_hours_minutes_seconds() {
    assert_eq!(parse_etime("01:02:30"), Some(3750));
}

#[test]
fn etime_days() {
    assert_eq!(parse_etime("2-01:02:30"), Some(176550));
}

#[test]
fn etime_trims_whitespace() {
    assert_eq!(parse_etime("  02:30 \n"), Some(150));
}

#[test]
fn etime_rejects_malformed() {
    assert_eq!(parse_etime(""), None);
    assert_eq!(parse_etime("   "), None);
    assert_eq!(parse_etime("90"), None);
    assert_eq!(parse_etime("abc"), None);
    assert_eq!(parse_etime("1:2:3:4"), None);
    assert_eq!(parse_etime("-01:02"), None);
    assert_eq!(parse_etime("x-01:02"), None);
    assert_eq!(parse_etime("1-2"), None);
    assert_eq!(parse_etime("01:xx"), None);
}

#[test]
fn etime_rejects_oversized() {
    // the day count alone overflows any 64-bit total
    assert_eq!(parse_etime("99999999999999999999-01:02:30"), None);
}

#[test]
fn staleness_threshold() {
    // equal ages: not stale
    assert!(!is_stale(100, 100));
    // 190-second gap, far beyond the 60-second grace window: stale
    assert!(is_stale(10, 200));
    // 50-second gap, inside the grace window: not stale
    assert!(!is_stale(150, 200));
    // exactly at the window's edge: not stale
    assert!(!is_stale(140, 200));
    assert!(is_stale(139, 200));
}

#[test]
fn staleness_verdict_from_etime() {
    assert_eq!(check_staleness(10, "03:20"), Some(true));
    assert_eq!(check_staleness(150, "03:20"), Some(false));
    // a malformed uptime yields "unknown", never a false verdict
    assert_eq!(check_staleness(10, "garbage"), None);
}
