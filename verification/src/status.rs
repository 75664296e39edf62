//! Process lifecycle states and the events the supervisor emits.
//!
//! A spawned process moves `Starting -> Running -> {Success, Failed,
//! Crashed}`; the three final states are terminal, and a terminal state
//! absorbs any later non-terminal report for the same spawn.

use vstd::prelude::*;

verus! {

/// The supervision state of one spawned process.
#[derive(Debug, Clone, Copy, PartialEq, Eq, Structural)]
pub enum ProcessStatus {
    /// A spawn was requested.
    Starting,
    /// The child's process id is known.
    Running,
    /// The child exited with a success code.
    Success,
    /// The child exited with a failure code, or never spawned.
    Failed,
    /// Waiting on the child failed: the process disappeared.
    Crashed,
}

/// A lifecycle transition reported for one project.
#[derive(Debug, Clone)]
pub struct StatusUpdate {
    pub project: String,
    pub status: ProcessStatus,
}

/// The process id of a freshly spawned child.
#[derive(Debug, Clone)]
pub struct ProcessInfo {
    pub project: String,
    pub pid: u32,
}

/// A state no later lifecycle event leaves.
pub open spec fn spec_terminal(s: ProcessStatus) -> bool {
    s == ProcessStatus::Success || s == ProcessStatus::Failed || s == ProcessStatus::Crashed
}

/// The state a tracked task shows after a report `update` arrives in state
/// `current`: the report, unless it would take a terminal state back to a
/// non-terminal one.
pub open spec fn spec_apply(current: ProcessStatus, update: ProcessStatus) -> ProcessStatus {
    if spec_terminal(current) && !spec_terminal(update) {
        current
    } else {
        update
    }
}

impl ProcessStatus {
    /// Whether this state is terminal.
    pub fn is_terminal(&self) -> (r: bool)
        ensures
            r == spec_terminal(*self),
    {
        match self {
            ProcessStatus::Success | ProcessStatus::Failed | ProcessStatus::Crashed => true,
            _ => false,
        }
    }

    /// Apply a lifecycle report to this state.
    pub fn apply(self, update: ProcessStatus) -> (r: ProcessStatus)
        ensures
            r == spec_apply(self, update),
    {
        if self.is_terminal() && !update.is_terminal() {
            self
        } else {
            update
        }
    }

    /// The status a process exit maps to: a success code reports `Success`,
    /// any other exit reports `Failed`.
    pub fn from_exit(success: bool) -> (r: ProcessStatus)
        ensures
            r == (if success {
                ProcessStatus::Success
            } else {
                ProcessStatus::Failed
            }),
    {
        if success {
            ProcessStatus::Success
        } else {
            ProcessStatus::Failed
        }
    }
}

/// Once a task's status is terminal, no report moves it to a non-terminal
/// state: whatever arrives, the state stays terminal.
pub proof fn lemma_terminal_is_final(current: ProcessStatus, update: ProcessStatus)
    requires
        spec_terminal(current),
    ensures
        spec_terminal(spec_apply(current, update)),
{
}

} // verus!
