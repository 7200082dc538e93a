//! The earlier command set of the editor-plugin helper: file heartbeats,
//! typing time, syncing and the database path.

use vstd::prelude::*;

verus! {

/// Arguments for logging a file event (open, save, focus, typing).
#[derive(Debug)]
pub struct HeartbeatArgs {
    pub file: String,
    pub activity: String,
    pub langauge: String,
    pub project: String,
    pub editor: String,
    pub metadata: Option<String>,
}

/// Arguments for tracking typing time.
#[derive(Debug)]
pub struct TypingArgs {
    pub file: String,
    pub language: String,
    pub project: String,
    pub editor: String,
}

/// A command of the earlier helper.
#[derive(Debug)]
pub enum Commands {
    /// Log a file event (open, save, focus, typing).
    Heartbeat(HeartbeatArgs),
    /// Start tracking typing time.
    Typing(TypingArgs),
    /// Sync tracked data to the server.
    Sync,
    /// Set the database path.
    SetDBPath { path: String },
    /// Get the current database path.
    GetDBPath,
}

} // verus!
