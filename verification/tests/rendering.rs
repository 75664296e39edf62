//! Rendering computations: the visible window, status glyphs and the
//! content colouring of log lines.

use meta::logs::LogLevel;
use meta::render::{
    colorize_log_message, scroll_indicator, scroll_position, status_icon, visible_window,
    SpanColor,
};
use meta::status::ProcessStatus;

fn joined(message: &str, level: LogLevel) -> String {
    colorize_log_message(message, &level).iter().map(|s| s.text.clone()).collect::<Vec<_>>().join(
        "",
    )
}

#[test]
fn window_shows_everything_that_fits() {
    assert_eq!(visible_window(0, 5, 10), (0, 5));
    assert_eq!(visible_window(4, 5, 10), (0, 5));
    assert_eq!(visible_window(0, 0, 10), (0, 0));
}

#[test]
fn window_is_one_page_containing_the_scroll() {
    // scrolled into the middle: the page starts at the scroll position
    assert_eq!(visible_window(10, 100, 20), (10, 30));
    // near the end: the page is clamped to the last full page
    assert_eq!(visible_window(95, 100, 20), (80, 100));
    // a stale scroll position past the end is clamped first
    assert_eq!(visible_window(500, 100, 20), (80, 100));
    assert_eq!(visible_window(0, 100, 20), (0, 20));
}

#[test]
fn status_icons_per_state() {
    assert_eq!(status_icon(&ProcessStatus::Starting), "🔄 ");
    assert_eq!(status_icon(&ProcessStatus::Running), "▶  ");
    assert_eq!(status_icon(&ProcessStatus::Success), "✅ ");
    assert_eq!(status_icon(&ProcessStatus::Failed), "❌ ");
    assert_eq!(status_icon(&ProcessStatus::Crashed), "💥 ");
}

#[test]
fn scroll_tags() {
    assert_eq!(scroll_indicator(true), "⬇ auto");
    assert_eq!(scroll_indicator(false), "⏸ manual");
    assert_eq!(scroll_position(4, 20), "5/20");
    assert_eq!(scroll_position(0, 0), "0/0");
}

#[test]
fn colorize_success_lines_green() {
    let spans = colorize_log_message("compiled successfully in 2s", &LogLevel::Info);
    assert_eq!(spans.len(), 1);
    assert_eq!(spans[0].color, SpanColor::Green);
    assert_eq!(spans[0].text, "compiled successfully in 2s");
}

#[test]
fn colorize_error_lines_bold_red() {
    let spans = colorize_log_message("build failed", &LogLevel::Info);
    assert_eq!(spans.len(), 1);
    assert_eq!(spans[0].color, SpanColor::Red);
    assert!(spans[0].bold);
}

#[test]
fn colorize_warnings_bold_yellow() {
    let spans = colorize_log_message("deprecation warning ahead", &LogLevel::Info);
    assert_eq!(spans.len(), 1);
    assert_eq!(spans[0].color, SpanColor::Yellow);
    assert!(spans[0].bold);
}

#[test]
fn colorize_underlines_urls_and_keeps_the_text() {
    let line = "serving at http://localhost:3000 now";
    let spans = colorize_log_message(line, &LogLevel::Info);
    assert_eq!(joined(line, LogLevel::Info), line);
    let url_span = spans.iter().find(|s| s.underlined).expect("a URL span");
    assert_eq!(url_span.text, "http://localhost:3000");
    assert_eq!(url_span.color, SpanColor::Cyan);
}

#[test]
fn colorize_marks_file_paths_magenta() {
    let spans = colorize_log_message("touched src/main.rs just now", &LogLevel::Info);
    assert_eq!(spans.len(), 1);
    assert_eq!(spans[0].color, SpanColor::Magenta);
}

#[test]
fn colorize_highlights_numbers_and_keeps_the_text() {
    let line = "served 42 requests on port 8080";
    let spans = colorize_log_message(line, &LogLevel::Info);
    assert_eq!(joined(line, LogLevel::Info), line);
    let yellow: Vec<&str> = spans
        .iter()
        .filter(|s| s.color == SpanColor::Yellow)
        .map(|s| s.text.as_str())
        .collect();
    assert_eq!(yellow, vec!["42", "8080"]);
}

#[test]
fn colorize_plain_lines_use_the_base_colour() {
    let spans = colorize_log_message("hello there", &LogLevel::Debug);
    assert_eq!(spans.len(), 1);
    assert_eq!(spans[0].color, SpanColor::DarkGray);
    let spans = colorize_log_message("hello there", &LogLevel::Info);
    assert_eq!(spans[0].color, SpanColor::White);
}
