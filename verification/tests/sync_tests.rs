use skopio::afk::AfkEvent;
use skopio::clock::{seconds_between, shift_seconds};
use skopio::commands::{Commands, HeartbeatArgs, TypingArgs};
use skopio::event_tracker::StoredEvent;
use skopio::heartbeat::Heartbeat;
use skopio::monitored_app::Entity;
use skopio::sync::{
    sync_next, sync_start, SyncAction, SyncKind, SyncOutcome, afk_payload, event_payload, events_payload, heartbeats_payload, stored_afk, stored_heartbeat,
    AfkEventPayload, StoredAfkEvent,
};

fn stored(app: &str, category: Option<&str>) -> StoredEvent {
    StoredEvent {
        timestamp: Some(1),
        duration: Some(2),
        category: category.map(|s| s.to_string()),
        app_name: app.to_string(),
        entity_name: None,
        entity_type: Some("App".to_string()),
        project_name: None,
        project_path: Some("/p".to_string()),
        branch_name: None,
        language_name: Some("Rust".to_string()),
        source_name: "skopio-desktop".to_string(),
        end_timestamp: Some(3),
    }
}

#[test]
fn absent_texts_are_sent_empty() {
    let p = event_payload(&stored("Figma", None));
    assert_eq!(p.category, "");
    assert_eq!(p.entity_name, "");
    assert_eq!(p.entity_type, "App");
    assert_eq!(p.project_name, "");
    assert_eq!(p.project_path, "/p");
    assert_eq!(p.branch_name, None);
    assert_eq!(p.language_name.as_deref(), Some("Rust"));
    assert_eq!((p.timestamp, p.duration, p.end_timestamp), (Some(1), Some(2), Some(3)));
}

#[test]
fn events_keep_their_order() {
    let v = vec![stored("A", Some("Coding")), stored("B", None)];
    let out = events_payload(&v);
    assert_eq!(out.len(), 2);
    assert_eq!(out[0].app_name, "A");
    assert_eq!(out[0].category, "Coding");
    assert_eq!(out[1].app_name, "B");
    assert!(events_payload(&vec![]).is_empty());
}

#[test]
fn afk_periods() {
    let s = stored_afk(&AfkEvent { afk_start: 10, afk_end: 20, duration: 0 });
    assert_eq!(s, StoredAfkEvent { id: None, afk_start: Some(10), afk_end: Some(20), duration: Some(0) });
    let out = afk_payload(&vec![s, StoredAfkEvent { id: Some(4), afk_start: None, afk_end: None, duration: None }]);
    assert_eq!(
        out,
        vec![
            AfkEventPayload { afk_start: 10, afk_end: Some(20), duration: Some(0) },
            AfkEventPayload { afk_start: 0, afk_end: None, duration: None },
        ]
    );
}

#[test]
fn whole_seconds_truncate_toward_zero() {
    assert_eq!(seconds_between(0, 1_999_999_999), 1);
    assert_eq!(seconds_between(1_999_999_999, 0), -1);
    assert_eq!(seconds_between(i64::MIN, i64::MAX), 18_446_744_073);
    assert_eq!(shift_seconds(5, 2), 2_000_000_005);
    assert_eq!(shift_seconds(0, -1), -1_000_000_000);
}

#[test]
fn legacy_commands_carry_their_arguments() {
    let h = Commands::Heartbeat(HeartbeatArgs {
        file: "a.rs".to_string(),
        activity: "save".to_string(),
        langauge: "Rust".to_string(),
        project: "p".to_string(),
        editor: "vim".to_string(),
        metadata: None,
    });
    assert!(matches!(h, Commands::Heartbeat(ref a) if a.file == "a.rs"));
    let t = Commands::Typing(TypingArgs { file: "a".to_string(), language: "Go".to_string(), project: "p".to_string(), editor: "zed".to_string() });
    assert!(matches!(t, Commands::Typing(_)));
    assert!(matches!(Commands::SetDBPath { path: "/x".to_string() }, Commands::SetDBPath { .. }));
}

#[test]
fn heartbeats_are_stored_and_sent() {
    let h = Heartbeat {
        timestamp: None,
        project_name: None,
        project_path: Some("/p".to_string()),
        entity_name: "main.swift".to_string(),
        entity_type: Entity::File,
        branch_name: Some("main".to_string()),
        language_name: Some("Swift".to_string()),
        app_name: "Xcode".to_string(),
        is_write: true,
        lines: None,
    };
    let s = stored_heartbeat(&h, Some(12), 99);
    assert_eq!(s.timestamp, 99);
    assert_eq!(s.entity_type, "File");
    assert_eq!(s.is_write, Some(true));
    assert_eq!(s.cursorpos, Some(12));
    assert_eq!(s.branch_name.as_deref(), Some("main"));
    let p = heartbeats_payload(&vec![s]);
    assert_eq!(p.len(), 1);
    assert_eq!(p[0].project_name, "");
    assert_eq!(p[0].project_path, "/p");
    assert_eq!(p[0].branch_name, "main.swift");
    assert!(p[0].is_write);
    assert_eq!(p[0].timestamp, 99);
}

#[test]
fn sync_steps() {
    assert!(matches!(sync_start(), SyncAction::Fetch(SyncKind::Events)));
    assert!(matches!(sync_next(SyncKind::Events, SyncOutcome::Fetched(Ok(0))), SyncAction::Fetch(SyncKind::Afk)));
    assert!(matches!(sync_next(SyncKind::Afk, SyncOutcome::Fetched(Ok(0))), SyncAction::Done));
    assert!(matches!(sync_next(SyncKind::Events, SyncOutcome::Fetched(Ok(3))), SyncAction::Send(SyncKind::Events)));
    assert!(matches!(sync_next(SyncKind::Events, SyncOutcome::Sent(true)), SyncAction::MarkSynced(SyncKind::Events)));
    assert!(matches!(sync_next(SyncKind::Events, SyncOutcome::Sent(false)), SyncAction::Fetch(SyncKind::Afk)));
    assert!(matches!(sync_next(SyncKind::Afk, SyncOutcome::Sent(false)), SyncAction::Done));
    assert!(matches!(sync_next(SyncKind::Afk, SyncOutcome::Marked(Ok(()))), SyncAction::DeleteSynced(SyncKind::Afk)));
    assert!(matches!(sync_next(SyncKind::Events, SyncOutcome::Deleted(Ok(()))), SyncAction::Fetch(SyncKind::Afk)));
    match sync_next(SyncKind::Events, SyncOutcome::Marked(Err("locked".to_string()))) {
        SyncAction::Fail(m) => assert_eq!(m, "locked"),
        other => panic!("unexpected {:?}", other),
    }
    assert!(matches!(sync_next(SyncKind::Afk, SyncOutcome::Fetched(Err("x".to_string()))), SyncAction::Fail(_)));
    assert!(matches!(sync_next(SyncKind::Afk, SyncOutcome::Deleted(Err("x".to_string()))), SyncAction::Fail(_)));
}
