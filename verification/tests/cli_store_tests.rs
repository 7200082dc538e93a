use rusqlite::Connection;
use skopio::cli::{handle_event, parse_event, sync_cutoff, Commands, EventData, EventRow};
use skopio::locations::{choose_db_path, db_filename};
use skopio::paths::join;
use std::time::{SystemTime, UNIX_EPOCH};

fn now_secs() -> i64 {
    SystemTime::now().duration_since(UNIX_EPOCH).unwrap().as_secs() as i64
}

fn test_conn() -> Connection {
    let conn = Connection::open_in_memory().unwrap();
    conn.execute(
        "CREATE TABLE events (
            id INTEGER PRIMARY KEY AUTOINCREMENT,
            timestamp INTEGER, category TEXT NOT NULL, app TEXT NOT NULL,
            entity_name TEXT NOT NULL, entity_type TEXT NOT NULL, duration INTEGER NOT NULL,
            project_path TEXT NOT NULL, branch TEXT, language TEXT, source TEXT NOT NULL,
            end_timestamp INTEGER, synced INTEGER NOT NULL DEFAULT 0)",
        [],
    )
    .unwrap();
    conn
}

fn save(conn: &Connection, e: &EventData) {
    conn.execute(
        "INSERT INTO events (timestamp, category, app, entity_name, entity_type, duration, project_path, branch, language, source, end_timestamp, synced)
         VALUES (?1, ?2, ?3, ?4, ?5, ?6, ?7, ?8, ?9, ?10, ?11, 0)",
        (
            e.timestamp,
            &e.category,
            &e.app,
            &e.entity,
            &e.entity_type,
            e.duration,
            &e.project,
            "main",
            &e.language,
            &e.source,
            e.end_timestamp,
        ),
    )
    .unwrap();
}

fn unsynced(conn: &Connection) -> Vec<EventRow> {
    let mut stmt = conn
        .prepare(
            "SELECT timestamp, category, app, entity_name, entity_type, duration, project_path, branch, language, source, end_timestamp
             FROM events WHERE synced = 0",
        )
        .unwrap();
    let rows = stmt
        .query_map([], |row| {
            Ok(EventRow {
                timestamp: row.get(0)?,
                category: row.get(1)?,
                app: row.get(2)?,
                entity_name: row.get(3)?,
                entity_type: row.get(4)?,
                duration: row.get(5)?,
                project_path: row.get(6)?,
                branch: row.get(7)?,
                language: row.get(8)?,
                source: row.get(9)?,
                end_timestamp: row.get(10)?,
            })
        })
        .unwrap();
    rows.flatten().collect()
}

#[test]
fn stores_and_returns_cli_path() {
    let dir = "/tmp/skopio-cli-config";
    let app = "android studio";

    let first = choose_db_path(Some(dir.to_string()), true, None, "/config", app, true);
    let expected = join(dir, &db_filename(app, true));
    assert_eq!(first.path, expected);
    assert!(first.store);

    let reread = choose_db_path(None, false, Some(first.path.clone()), "/config", app, true);
    assert_eq!(reread.path, expected);
    assert!(!reread.store);
}

#[test]
fn test_fetch_unsynced_events() {
    let conn = test_conn();
    let now = now_secs();
    let command = Commands::Event {
        timestamp: now as i32,
        category: "Coding".into(),
        app: "Code".into(),
        entity: "main.rs".into(),
        entity_type: "File".into(),
        duration: 300,
        project: "/tmp/project".into(),
        source: "skopio-vscode".into(),
        end_timestamp: (now + 100) as i32,
    };
    let event = handle_event(command, None).unwrap();
    assert_eq!(event.language.as_deref(), Some("Rust"));
    save(&conn, &event);

    let events: Vec<_> = unsynced(&conn).into_iter().map(parse_event).collect();
    assert_eq!(events.len(), 1);
    assert_eq!(events[0].category, "Coding");
    assert_eq!(events[0].project_path, "/tmp/project");
    assert_eq!(events[0].project_name, "project");
}

#[test]
fn test_delete_synced_data() {
    let conn = test_conn();
    let old_ts = now_secs() - 20 * 86_400;
    conn.execute(
        "INSERT INTO events (timestamp, category, app, entity_name, entity_type, duration, project_path, branch, language, source, end_timestamp, synced)
         VALUES (?1, 'Coding', 'VSCode', 'main.rs', 'file', 100, '/tmp/project', 'main', 'Rust', 'skopio-vscode', ?2, 1)",
        (old_ts, old_ts + 100),
    )
    .unwrap();

    conn.execute(
        "DELETE FROM events WHERE synced = 1 AND timestamp < ?1",
        (sync_cutoff(now_secs()),),
    )
    .unwrap();

    let remaining_events: i64 = conn.query_row("SELECT COUNT(*) FROM events", [], |row| row.get(0)).unwrap();
    assert_eq!(remaining_events, 0);
}
