//! The dashboard state machine: buffer bound, filtering, search, scrolling,
//! auto-scroll, status transitions and exports.

use meta::config::{Config, ProjectConfig, TaskConfig, ToolConfig, WorkspaceConfig};
use meta::logs::{LogLevel, LogMessage};
use meta::status::{ProcessStatus, StatusUpdate};
use meta::tui::{App, FocusedPanel, KeyCode, KeyInput, RunningTask};

fn empty_config() -> Config {
    Config {
        workspace: WorkspaceConfig { name: "ws".to_string(), root: ".".to_string() },
        tools: Vec::new(),
        projects: Vec::new(),
    }
}

fn dev_project(tool: &str) -> ProjectConfig {
    ProjectConfig {
        project_type: "rust".to_string(),
        path: "apps/x".to_string(),
        tasks: vec![(
            "dev".to_string(),
            TaskConfig { tool: tool.to_string(), command: "run-long".to_string() },
        )],
    }
}

fn msg(project: &str, text: &str) -> LogMessage {
    LogMessage::from_stdout(project.to_string(), text.to_string(), "12:00:00".to_string())
}

fn key(code: KeyCode) -> KeyInput {
    KeyInput { code, ctrl: false, shift: false }
}

fn ctrl(c: char) -> KeyInput {
    KeyInput { code: KeyCode::Char(c), ctrl: true, shift: false }
}

#[test]
fn buffer_evicts_oldest_beyond_capacity() {
    let mut app = App::new(empty_config());
    app.max_logs = 5;
    for i in 0..12 {
        app.record_log(msg("api", &format!("line {i}")));
    }
    // N = 12 > capacity = 5: length equals capacity, the oldest 7 are gone
    assert_eq!(app.logs.len(), 5);
    assert_eq!(app.logs[0].message, "line 7");
    assert_eq!(app.logs[4].message, "line 11");
    for m in &app.logs {
        assert!(!m.message.ends_with("line 6"));
    }
}

#[test]
fn default_capacity_is_1000() {
    let mut app = App::new(empty_config());
    for i in 0..1005 {
        app.record_log(msg("api", &format!("m{i}")));
    }
    assert_eq!(app.logs.len(), 1000);
    assert_eq!(app.logs[0].message, "m5");
}

#[test]
fn filter_selects_exactly_that_project() {
    let mut app = App::new(empty_config());
    for i in 0..6 {
        let p = if i % 2 == 0 { "api" } else { "web" };
        app.record_log(msg(p, &format!("l{i}")));
    }
    app.filter_project = Some("api".to_string());
    let visible = app.get_filtered_logs();
    assert_eq!(visible.len(), 3);
    assert!(visible.iter().all(|m| m.project == "api"));
    // clearing the filter restores the full set
    app.filter_project = None;
    assert_eq!(app.get_filtered_logs().len(), 6);
}

#[test]
fn filter_toggle_resets_scroll_and_auto_scroll() {
    let mut app = App::new(empty_config());
    app.running_tasks.push(RunningTask {
        name: "api".to_string(),
        status: ProcessStatus::Running,
        tool: "bacon".to_string(),
    });
    for i in 0..20 {
        app.record_log(msg("api", &format!("l{i}")));
    }
    app.auto_scroll = false;
    app.log_scroll = 7;
    app.toggle_filter();
    assert_eq!(app.filter_project.as_deref(), Some("api"));
    // the view resets to the bottom of the filtered list, auto-scroll on
    assert_eq!(app.log_scroll, 19);
    assert!(app.auto_scroll);
    // toggling the same project again clears the filter
    app.toggle_filter();
    assert_eq!(app.filter_project, None);
    assert!(app.auto_scroll);
    // after any filter change the offset addresses the visible view
    assert!(app.log_scroll == 0 || app.log_scroll < app.get_filtered_logs().len());
}

#[test]
fn auto_scroll_pins_to_newest_filtered_message() {
    let mut app = App::new(empty_config());
    app.filter_project = Some("api".to_string());
    assert!(app.auto_scroll);
    app.record_log(msg("api", "one"));
    app.record_log(msg("web", "noise"));
    app.record_log(msg("api", "two"));
    // two visible messages: the scroll sits on index 1, the newest
    assert_eq!(app.get_filtered_logs().len(), 2);
    assert_eq!(app.log_scroll, 1);
}

#[test]
fn manual_scroll_disables_auto_scroll_and_end_reenables() {
    let mut app = App::new(empty_config());
    app.focused_panel = FocusedPanel::Logs;
    for i in 0..50 {
        app.record_log(msg("api", &format!("l{i}")));
    }
    app.handle_key(key(KeyCode::Up));
    assert!(!app.auto_scroll);
    assert_eq!(app.log_scroll, 48);
    app.handle_key(ctrl('u'));
    assert_eq!(app.log_scroll, 33);
    app.handle_key(key(KeyCode::PageUp));
    assert_eq!(app.log_scroll, 23);
    app.handle_key(ctrl('b'));
    assert_eq!(app.log_scroll, 0);
    app.handle_key(key(KeyCode::End));
    assert!(app.auto_scroll);
    assert_eq!(app.log_scroll, 49);
    // scrolling down past the end re-enables auto-scroll
    app.handle_key(key(KeyCode::Home));
    assert!(!app.auto_scroll);
    app.handle_key(ctrl('f'));
    app.handle_key(ctrl('f'));
    assert_eq!(app.log_scroll, 49);
    assert!(app.auto_scroll);
}

#[test]
fn quit_keys_set_the_flag() {
    let mut app = App::new(empty_config());
    app.handle_key(key(KeyCode::Char('q')));
    assert!(app.should_quit);
    let mut app2 = App::new(empty_config());
    app2.handle_key(key(KeyCode::Esc));
    assert!(app2.should_quit);
}

#[test]
fn search_jumps_to_first_matching_project() {
    let mut app = App::new(empty_config());
    for name in ["api", "web", "worker"] {
        app.running_tasks.push(RunningTask {
            name: name.to_string(),
            status: ProcessStatus::Starting,
            tool: "bacon".to_string(),
        });
    }
    app.handle_key(key(KeyCode::Char('/')));
    assert!(app.search_mode);
    app.handle_key(key(KeyCode::Char('W')));
    // case-insensitive: "W" matches "web" first
    assert_eq!(app.selected_project, 1);
    app.handle_key(key(KeyCode::Char('o')));
    assert_eq!(app.selected_project, 2);
    // confirming keeps the selection and leaves search mode
    app.handle_key(key(KeyCode::Enter));
    assert!(!app.search_mode);
    assert_eq!(app.selected_project, 2);
}

#[test]
fn search_cancel_clears_buffer_and_keeps_selection() {
    let mut app = App::new(empty_config());
    app.running_tasks.push(RunningTask {
        name: "api".to_string(),
        status: ProcessStatus::Starting,
        tool: "bacon".to_string(),
    });
    app.handle_key(key(KeyCode::Char('/')));
    app.handle_key(key(KeyCode::Char('a')));
    assert_eq!(app.selected_project, 0);
    app.handle_key(key(KeyCode::Esc));
    assert!(!app.search_mode);
    assert!(app.search_buffer.is_empty());
    assert!(!app.should_quit);
}

#[test]
fn selection_stays_inside_the_task_list() {
    let mut app = App::new(empty_config());
    for name in ["a", "b", "c"] {
        app.running_tasks.push(RunningTask {
            name: name.to_string(),
            status: ProcessStatus::Starting,
            tool: "t".to_string(),
        });
    }
    app.select_previous();
    assert_eq!(app.selected_project, 0);
    for _ in 0..10 {
        app.select_next();
    }
    assert_eq!(app.selected_project, 2);
    app.quick_jump('2');
    assert_eq!(app.selected_project, 1);
    app.quick_jump('9');
    assert_eq!(app.selected_project, 1);
}

#[test]
fn terminal_status_absorbs_later_reports() {
    let mut app = App::new(empty_config());
    app.running_tasks.push(RunningTask {
        name: "api".to_string(),
        status: ProcessStatus::Running,
        tool: "bacon".to_string(),
    });
    app.apply_status_update(&StatusUpdate {
        project: "api".to_string(),
        status: ProcessStatus::Failed,
    });
    assert_eq!(app.running_tasks[0].status, ProcessStatus::Failed);
    // a late non-terminal report never reopens a finished spawn
    app.apply_status_update(&StatusUpdate {
        project: "api".to_string(),
        status: ProcessStatus::Running,
    });
    assert_eq!(app.running_tasks[0].status, ProcessStatus::Failed);
    // a terminal report may still replace a terminal state
    app.apply_status_update(&StatusUpdate {
        project: "api".to_string(),
        status: ProcessStatus::Crashed,
    });
    assert_eq!(app.running_tasks[0].status, ProcessStatus::Crashed);
}

#[test]
fn status_updates_pick_the_named_task() {
    let mut app = App::new(empty_config());
    for name in ["api", "web"] {
        app.running_tasks.push(RunningTask {
            name: name.to_string(),
            status: ProcessStatus::Starting,
            tool: "t".to_string(),
        });
    }
    app.apply_status_update(&StatusUpdate {
        project: "web".to_string(),
        status: ProcessStatus::Running,
    });
    assert_eq!(app.running_tasks[0].status, ProcessStatus::Starting);
    assert_eq!(app.running_tasks[1].status, ProcessStatus::Running);
    // an unknown project changes nothing
    app.apply_status_update(&StatusUpdate {
        project: "ghost".to_string(),
        status: ProcessStatus::Crashed,
    });
    assert_eq!(app.running_tasks[0].status, ProcessStatus::Starting);
}

#[test]
fn init_tasks_registers_projects_with_dev_commands() {
    let mut config = empty_config();
    config.projects.push(("api".to_string(), dev_project("bacon")));
    config.projects.push((
        "docs".to_string(),
        ProjectConfig {
            project_type: "node".to_string(),
            path: "apps/docs".to_string(),
            tasks: Vec::new(),
        },
    ));
    config.projects.push(("web".to_string(), dev_project("turborepo")));
    let mut app = App::new(config);
    app.init_tasks();
    assert_eq!(app.running_tasks.len(), 2);
    assert_eq!(app.running_tasks[0].name, "api");
    assert_eq!(app.running_tasks[0].status, ProcessStatus::Starting);
    assert_eq!(app.running_tasks[0].tool, "bacon");
    assert_eq!(app.running_tasks[1].name, "web");
}

#[test]
fn process_ids_replace_per_project() {
    let mut app = App::new(empty_config());
    app.record_process_info(meta::status::ProcessInfo { project: "api".to_string(), pid: 10 });
    app.record_process_info(meta::status::ProcessInfo { project: "web".to_string(), pid: 20 });
    app.record_process_info(meta::status::ProcessInfo { project: "api".to_string(), pid: 30 });
    assert_eq!(app.process_ids.len(), 2);
    assert_eq!(app.process_ids[0], ("api".to_string(), 30));
    assert_eq!(app.process_ids[1], ("web".to_string(), 20));
}

#[test]
fn export_text_and_filename() {
    let mut app = App::new(empty_config());
    app.record_log(LogMessage::from_stdout(
        "api".to_string(),
        "ok".to_string(),
        "12:00:00".to_string(),
    ));
    app.record_log(LogMessage::from_stderr(
        "api".to_string(),
        "boom".to_string(),
        "12:00:01".to_string(),
    ));
    let text = app.render_export_text();
    assert_eq!(text, "[12:00:00] [api] [INFO] ok\n[12:00:01] [api] [ERROR] boom\n");
    assert_eq!(app.export_filename("20240101_120000"), "meta-logs-all-20240101_120000.txt");
    app.filter_project = Some("api".to_string());
    assert_eq!(app.export_filename("20240101_120000"), "meta-logs-api-20240101_120000.txt");
}

#[test]
fn save_without_filter_only_reports() {
    let mut app = App::new(empty_config());
    let r = app.save_filtered_logs(1_000);
    assert!(r.is_none());
    let (text, at) = app.export_message.clone().unwrap();
    assert_eq!(text, "❌ No filter active. Use 'e' to export all logs.");
    assert_eq!(at, 1_000);
    // the notice expires three seconds after it was set
    app.on_tick(3_999);
    assert!(app.export_message.is_some());
    app.on_tick(4_000);
    assert!(app.export_message.is_none());
}

#[test]
fn save_with_filter_hands_back_the_export() {
    let mut app = App::new(empty_config());
    app.record_log(msg("api", "hello"));
    app.filter_project = Some("api".to_string());
    let (name, text) = app.save_filtered_logs(0).unwrap();
    assert!(name.starts_with("meta-logs-api-"));
    assert!(name.ends_with(".txt"));
    assert_eq!(text, "[12:00:00] [api] [INFO] hello\n");
}

#[test]
fn export_result_messages() {
    assert_eq!(
        App::export_success_message(3, "meta-logs-all-x.txt"),
        "✅ Exported 3 logs to meta-logs-all-x.txt"
    );
    assert_eq!(App::export_copied_message(12), "✅ Copied 12 logs to clipboard");
}

#[test]
fn clear_logs_resets_view() {
    let mut app = App::new(empty_config());
    for i in 0..4 {
        app.record_log(msg("api", &format!("l{i}")));
    }
    app.handle_key(key(KeyCode::Char('c')));
    assert_eq!(app.logs.len(), 0);
    assert_eq!(app.log_scroll, 0);
}

#[test]
fn tab_toggles_focus() {
    let mut app = App::new(empty_config());
    assert_eq!(app.focused_panel, FocusedPanel::Projects);
    app.handle_key(key(KeyCode::Tab));
    assert_eq!(app.focused_panel, FocusedPanel::Logs);
    app.handle_key(key(KeyCode::Tab));
    assert_eq!(app.focused_panel, FocusedPanel::Projects);
}
