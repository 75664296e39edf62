//! The adapter that names a tool and the command that runs it.  Spawning and
//! waiting on the tool's process is I/O and lives with the caller; the
//! adapter itself is plain data.

use vstd::prelude::*;

verus! {

/// One runnable tool: its configured name and its executable.
#[derive(Debug)]
pub struct ToolAdapter {
    pub name: String,
    pub command: String,
}

impl ToolAdapter {
    /// An adapter for the named tool.
    pub fn new(name: String, command: String) -> (r: ToolAdapter)
        ensures
            r.name == name,
            r.command == command,
    {
        ToolAdapter { name, command }
    }
}

} // verus!
