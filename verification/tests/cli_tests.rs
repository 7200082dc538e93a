use skopio::cli::{handle_event, parse_event, sync_cutoff, CliError, Commands, EventRow};
use skopio::clock::{UTC_MAX_SECS, UTC_MIN_SECS};

fn event_command(entity: &str) -> Commands {
    Commands::Event {
        timestamp: 1_700_000_000,
        category: "Coding".to_string(),
        app: "vim".to_string(),
        entity: entity.to_string(),
        entity_type: "File".to_string(),
        duration: 30,
        project: "/home/me/proj".to_string(),
        source: "skopio-vim".to_string(),
        end_timestamp: 1_700_000_030,
    }
}

#[test]
fn event_command_is_stored_with_language() {
    let e = handle_event(event_command("/home/me/proj/src/main.rs"), None).unwrap();
    assert_eq!(e.timestamp, 1_700_000_000);
    assert_eq!(e.category, "Coding");
    assert_eq!(e.app, "vim");
    assert_eq!(e.entity, "/home/me/proj/src/main.rs");
    assert_eq!(e.entity_type, "File");
    assert_eq!(e.duration, 30);
    assert_eq!(e.project, "/home/me/proj");
    assert_eq!(e.language.as_deref(), Some("Rust"));
    assert_eq!(e.source, "skopio-vim");
    assert_eq!(e.end_timestamp, 1_700_000_030);
}

#[test]
fn event_language_falls_back_to_contents() {
    let e = handle_event(event_command("/home/me/proj/Dockerfile.custom"), Some("Dockerfile".to_string())).unwrap();
    assert_eq!(e.language.as_deref(), Some("Dockerfile"));
    let none = handle_event(event_command("/x/noext"), None).unwrap();
    assert_eq!(none.language, None);
}

#[test]
fn sync_is_not_an_event() {
    match handle_event(Commands::Sync, None) {
        Err(CliError::VariantMismatch(m)) => assert_eq!(m, "Event"),
        other => panic!("unexpected {:?}", other),
    }
}

fn row(project_path: &str, ts: Option<i64>) -> EventRow {
    EventRow {
        timestamp: ts,
        category: "Coding".to_string(),
        app: "vim".to_string(),
        entity_name: "main.rs".to_string(),
        entity_type: "File".to_string(),
        duration: 12,
        project_path: project_path.to_string(),
        branch: Some("main".to_string()),
        language: None,
        source: "skopio-vim".to_string(),
        end_timestamp: ts.map(|t| t + 12),
    }
}

#[test]
fn stored_rows_become_server_events() {
    let e = parse_event(row("/home/me/skopio", Some(1_700_000_000)));
    assert_eq!(e.project_name, "skopio");
    assert_eq!(e.project_path, "/home/me/skopio");
    assert_eq!(e.timestamp, Some(1_700_000_000));
    assert_eq!(e.end_timestamp, Some(1_700_000_012));
    assert_eq!(e.branch_name.as_deref(), Some("main"));
    assert_eq!(e.duration, 12);
    assert_eq!(e.source_name, "skopio-vim");
    let empty = parse_event(row("", None));
    assert_eq!(empty.project_name, "");
    assert_eq!(empty.timestamp, None);
}

#[test]
fn unrepresentable_instants_become_the_epoch() {
    let e = parse_event(row("/p", Some(i64::MAX)));
    assert_eq!(e.timestamp, Some(0));
    let early = parse_event(row("/p", Some(-1)));
    assert_eq!(early.timestamp, Some(-1));
}

#[test]
fn synced_events_are_kept_fifteen_days() {
    assert_eq!(sync_cutoff(2_000_000_000), 2_000_000_000 - 15 * 86_400);
}

#[test]
fn representable_instant_bounds() {
    assert_eq!(parse_event(row("/p", Some(UTC_MAX_SECS))).timestamp, Some(UTC_MAX_SECS));
    assert_eq!(parse_event(row("/p", Some(UTC_MAX_SECS + 1))).timestamp, Some(0));
    assert_eq!(parse_event(row("/p", Some(UTC_MIN_SECS))).timestamp, Some(UTC_MIN_SECS));
    assert_eq!(parse_event(row("/p", Some(UTC_MIN_SECS - 1))).timestamp, Some(0));
}
