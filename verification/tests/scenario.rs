//! An end-to-end run of the pipeline into the dashboard, over the real
//! queues: two projects produce output concurrently-shaped events, the
//! dashboard drains them on a tick, and the buffer, severities and filter
//! come out exactly as specified.

use meta::config::{Config, WorkspaceConfig};
use meta::logs::{LogLevel, LogMessage};
use meta::status::{ProcessInfo, ProcessStatus, StatusUpdate};
use meta::tui::{App, RunningTask};

fn bare_config() -> Config {
    Config {
        workspace: WorkspaceConfig { name: "ws".to_string(), root: ".".to_string() },
        tools: Vec::new(),
        projects: Vec::new(),
    }
}

#[test]
fn two_projects_through_the_queues() {
    let (log_tx, log_rx) = tokio::sync::mpsc::unbounded_channel::<LogMessage>();
    let (status_tx, status_rx) = tokio::sync::mpsc::unbounded_channel::<StatusUpdate>();
    let (proc_tx, proc_rx) = tokio::sync::mpsc::unbounded_channel::<ProcessInfo>();

    let mut app = App::new(bare_config()).with_receivers(log_rx, status_rx, proc_rx);
    for name in ["A", "B"] {
        app.running_tasks.push(RunningTask {
            name: name.to_string(),
            status: ProcessStatus::Starting,
            tool: "bacon".to_string(),
        });
    }

    // project A emits three stdout lines, one of them carrying "error"
    for text in ["compiling", "error: type mismatch", "done"] {
        log_tx
            .send(LogMessage::from_stdout(
                "A".to_string(),
                text.to_string(),
                "12:00:00".to_string(),
            ))
            .unwrap();
    }
    // project B emits one stderr line, harmless text included
    log_tx
        .send(LogMessage::from_stderr(
            "B".to_string(),
            "note: starting up".to_string(),
            "12:00:01".to_string(),
        ))
        .unwrap();
    // lifecycle and pid side channels
    proc_tx.send(ProcessInfo { project: "A".to_string(), pid: 101 }).unwrap();
    proc_tx.send(ProcessInfo { project: "B".to_string(), pid: 102 }).unwrap();
    status_tx
        .send(StatusUpdate { project: "A".to_string(), status: ProcessStatus::Running })
        .unwrap();
    status_tx
        .send(StatusUpdate { project: "B".to_string(), status: ProcessStatus::Crashed })
        .unwrap();

    app.on_tick(0);

    // all four messages are buffered
    assert_eq!(app.logs.len(), 4);
    // exactly two are errors: A's "error" line and B's stderr line
    let errors = app.logs.iter().filter(|m| m.level == LogLevel::Error).count();
    assert_eq!(errors, 2);
    // filtering by A yields exactly A's three messages
    app.filter_project = Some("A".to_string());
    let visible = app.get_filtered_logs();
    assert_eq!(visible.len(), 3);
    assert!(visible.iter().all(|m| m.project == "A"));
    // pids and statuses arrived on their own channels
    assert_eq!(app.process_ids, vec![("A".to_string(), 101), ("B".to_string(), 102)]);
    assert_eq!(app.running_tasks[0].status, ProcessStatus::Running);
    assert_eq!(app.running_tasks[1].status, ProcessStatus::Crashed);
    // auto-scroll pinned the view to the newest message while draining
    assert!(app.auto_scroll);
    assert_eq!(app.log_scroll, app.logs.len() - 1);

    // a later non-terminal report cannot reopen B's crashed spawn
    status_tx
        .send(StatusUpdate { project: "B".to_string(), status: ProcessStatus::Running })
        .unwrap();
    app.on_tick(250);
    assert_eq!(app.running_tasks[1].status, ProcessStatus::Crashed);
}
