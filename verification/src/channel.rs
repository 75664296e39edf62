//! The receiving ends of the supervisor's event queues.
//!
//! Producer tasks (spawn/wait and line readers) push log messages, lifecycle
//! updates and process ids onto unbounded multi-producer queues; the
//! dashboard is the sole consumer and drains them without blocking on its
//! tick.  The queue type is tokio's unbounded mpsc channel, declared here so
//! the dashboard can hold and poll the receivers.

use vstd::prelude::*;

use crate::logs::LogMessage;
use crate::status::{ProcessInfo, StatusUpdate};

verus! {

#[verifier::external_type_specification]
#[verifier::external_body]
#[verifier::reject_recursive_types(T)]
pub struct ExUnboundedReceiver<T>(tokio::sync::mpsc::UnboundedReceiver<T>);

/// The queue of classified output lines.
pub type LogReceiver = tokio::sync::mpsc::UnboundedReceiver<LogMessage>;

/// The queue of lifecycle transitions.
pub type StatusReceiver = tokio::sync::mpsc::UnboundedReceiver<StatusUpdate>;

/// The queue of process ids of freshly spawned children.
pub type ProcessReceiver = tokio::sync::mpsc::UnboundedReceiver<ProcessInfo>;

/// Relies on tokio's `UnboundedReceiver::try_recv`: hands out one pending
/// message, if any is queued, without blocking.  Whether a message is
/// pending, and which, depends on the producer tasks, so nothing is stated
/// of the result.
#[verifier::external_body]
pub fn try_recv_event<T>(rx: &mut tokio::sync::mpsc::UnboundedReceiver<T>) -> (r: Option<T>) {
    rx.try_recv().ok()
}

} // verus!
