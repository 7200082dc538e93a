//! The editor-plugin command line: its commands, the records it stores,
//! and the records it sends to the server.

use vstd::prelude::*;
use crate::language::{detect_language, detected_language};
use crate::locations::{extract_project_name, project_name_of};
use crate::clock::{UTC_MIN_SECS, UTC_MAX_SECS};

verus! {

/// A command of the editor-plugin helper.
#[derive(Debug)]
pub enum Commands {
    /// Save an event (a period of activity, with a start and end timestamp).
    Event {
        timestamp: i32,
        category: String,
        app: String,
        entity: String,
        entity_type: String,
        duration: i32,
        project: String,
        source: String,
        end_timestamp: i32,
    },
    /// Sync stored data to the main server.
    Sync,
}

/// The command line of the editor-plugin helper.
#[derive(Debug)]
pub struct Cli {
    pub command: Option<Commands>,
}

/// An event as the CLI stores it.
#[derive(Debug)]
pub struct EventData {
    pub timestamp: i32,
    pub category: String,
    pub app: String,
    pub entity: String,
    pub entity_type: String,
    pub duration: i32,
    pub project: String,
    pub language: Option<String>,
    pub source: String,
    pub end_timestamp: i32,
}

/// A heartbeat as the CLI stores it.
#[derive(Debug)]
pub struct HeartbeatData {
    pub timestamp: i32,
    pub project: String,
    pub entity: String,
    pub entity_type: String,
    pub app: String,
    pub is_write: bool,
    pub lines: Option<i64>,
    pub cursorpos: Option<i64>,
}

/// Everything that can go wrong in the CLI; errors of outside libraries
/// carry their message.
#[derive(Debug)]
pub enum CliError {
    Db(String),
    Common(String),
    Io(String),
    Migration(String),
    /// A handler received a command of another kind.
    VariantMismatch(String),
    Json(String),
}

/// The event an `Event` command records: the command's fields, with the
/// entity's language detected (by extension, else `file_language`, the
/// language found in the entity file); any other command is a mismatch.
pub fn handle_event(command: Commands, file_language: Option<String>) -> (r: Result<EventData, CliError>)
    ensures
        match command {
            Commands::Event { timestamp, category, app, entity, entity_type, duration, project, source, end_timestamp } => r matches Ok(e) && {
                &&& e.timestamp == timestamp && e.category == category && e.app == app
                &&& e.entity == entity && e.entity_type == entity_type && e.duration == duration
                &&& e.project == project && e.source == source && e.end_timestamp == end_timestamp
                &&& e.language.deep_view() == detected_language(entity@, file_language.deep_view())
            },
            Commands::Sync => r matches Err(CliError::VariantMismatch(m)) && m@ == "Event"@,
        },
{
    match command {
        Commands::Event { timestamp, category, app, entity, entity_type, duration, project, source, end_timestamp } => {
            let language = detect_language(entity.as_str(), file_language);
            Ok(EventData {
                timestamp,
                category,
                app,
                entity,
                entity_type,
                duration,
                project,
                language,
                source,
                end_timestamp,
            })
        },
        Commands::Sync => Err(CliError::VariantMismatch(String::from_str("Event"))),
    }
}

/// The Unix seconds `chrono` keeps of `t`: `t` itself when it is a
/// representable instant, else the epoch.
pub open spec fn utc_seconds_or_epoch(t: i64) -> i64 {
    if UTC_MIN_SECS <= t <= UTC_MAX_SECS { t } else { 0 }
}

/// Calls `chrono::Utc.timestamp_opt(t, 0).single()`, falling back to the
/// default instant (the epoch), and reads back its `timestamp()`. Claims
/// the result is `t` for the instants chrono represents (the years
/// -262143 to 262142, by the date range its `from_timestamp` checks) and
/// 0 for the others.
#[verifier::external_body]
fn utc_seconds(t: i64) -> (r: i64)
    ensures
        r == utc_seconds_or_epoch(t),
{
    <chrono::Utc as chrono::TimeZone>::timestamp_opt(&chrono::Utc, t, 0).single().unwrap_or_default().timestamp()
}

/// A stored event row, as read back from the CLI's database.
#[derive(Debug)]
pub struct EventRow {
    pub timestamp: Option<i64>,
    pub category: String,
    pub app: String,
    pub entity_name: String,
    pub entity_type: String,
    pub duration: i64,
    pub project_path: String,
    pub branch: Option<String>,
    pub language: Option<String>,
    pub source: String,
    pub end_timestamp: Option<i64>,
}

/// An event as sent to the server. Instants are Unix seconds.
#[derive(Debug)]
pub struct EventInput {
    pub timestamp: Option<i64>,
    pub category: String,
    pub app_name: String,
    pub entity_name: String,
    pub entity_type: String,
    pub duration: i64,
    pub project_name: String,
    pub project_path: String,
    pub branch_name: Option<String>,
    pub language_name: Option<String>,
    pub source_name: String,
    pub end_timestamp: Option<i64>,
}

/// Instants made representable.
pub open spec fn kept_instant(t: Option<i64>) -> Option<i64> {
    match t {
        Some(x) => Some(utc_seconds_or_epoch(x)),
        None => None,
    }
}

fn keep_instant(t: Option<i64>) -> (r: Option<i64>)
    ensures
        r == kept_instant(t),
{
    match t {
        Some(x) => Some(utc_seconds(x)),
        None => None,
    }
}

/// The server form of a stored row: the project is named after the last
/// component of its path.
pub fn parse_event(row: EventRow) -> (r: EventInput)
    ensures
        r.timestamp == kept_instant(row.timestamp),
        r.category == row.category,
        r.app_name == row.app,
        r.entity_name == row.entity_name,
        r.entity_type == row.entity_type,
        r.duration == row.duration,
        r.project_name@ == project_name_of(row.project_path@),
        r.project_path == row.project_path,
        r.branch_name == row.branch,
        r.language_name == row.language,
        r.source_name == row.source,
        r.end_timestamp == kept_instant(row.end_timestamp),
{
    let project_name = extract_project_name(row.project_path.as_str());
    EventInput {
        timestamp: keep_instant(row.timestamp),
        category: row.category,
        app_name: row.app,
        entity_name: row.entity_name,
        entity_type: row.entity_type,
        duration: row.duration,
        project_name,
        project_path: row.project_path,
        branch_name: row.branch,
        language_name: row.language,
        source_name: row.source,
        end_timestamp: keep_instant(row.end_timestamp),
    }
}

/// Seconds synced events are kept: fifteen days.
pub const SYNCED_RETENTION_SECS: i64 = 1_296_000;

/// The instant before which synced events are deleted, at `now_secs`.
pub fn sync_cutoff(now_secs: i64) -> (r: i64)
    requires
        now_secs >= i64::MIN + SYNCED_RETENTION_SECS,
    ensures
        r == now_secs - 15 * 86400,
{
    now_secs - SYNCED_RETENTION_SECS
}

} // verus!
