//! The orchestrator's command line, as plain data: which subcommand was
//! asked for and with which options.  Argument parsing itself stays outside.

use vstd::prelude::*;

verus! {

/// A parsed invocation.
#[derive(Debug)]
pub struct Cli {
    pub command: Commands,
}

/// The orchestrator's subcommands.
#[derive(Debug)]
pub enum Commands {
    /// Write a fresh configuration for the detected projects.
    Init,
    /// Start the dev commands of the selected (or all) projects.
    Dev { projects: Option<Vec<String>> },
    /// Stop the running development session.
    DevStop,
    /// Report running processes, recent events and binary staleness.
    Status { project: Option<String>, lines: usize },
    /// Build the selected (or all) projects.
    Build { prod: bool, projects: Option<Vec<String>> },
    /// Run the test tasks.
    Test { watch: bool },
    /// Run an arbitrary named task across projects.
    Run { task: String, projects: Option<Vec<String>> },
    /// Launch the interactive dashboard over live dev processes.
    Tui,
    /// Check the configuration and the available tools.
    Doctor,
}

} // verus!
