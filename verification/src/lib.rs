//! A development-process orchestrator core for multi-project workspaces.
//!
//! The library verifies the logic of a supervisor/dashboard tool: a pure log
//! classifier, a staleness detector for rebuilt binaries, a bounded log buffer
//! with FIFO eviction, and the state machine of an interactive dashboard that
//! filters, searches, scrolls and exports the aggregated log stream.  A small
//! e-commerce API service that shares the workspace is modelled alongside it.
//! All I/O (child processes, the terminal, HTTP) stays outside; the library
//! computes every decision from plain values and states what it computes.

pub mod adapters;
pub mod allframe_service;
pub mod allframe_client;
pub mod api_config;
pub mod channel;
pub mod cli;
pub mod config;
pub mod dto;
pub mod error;
pub mod etime;
pub mod logs;
pub mod render;
pub mod router;
pub mod status;
pub mod subscription;
pub mod text;
pub mod tui;
