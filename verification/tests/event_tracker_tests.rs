use skopio::event_tracker::{
    finish_event, window_changed, window_from, Event, EventTracker, StoredEvent, TrackerAction, TrackerSignal,
    Window, SOURCE,
};
use skopio::monitored_app::{AppDetails, Category, Entity};

const SEC: i64 = 1_000_000_000;

fn details(entity: &str) -> AppDetails {
    AppDetails {
        project_name: Some("proj".to_string()),
        project_path: Some("/p/proj".to_string()),
        entity: entity.to_string(),
        entity_type: Entity::File,
        category: Category::Coding,
        language: Some("Rust".to_string()),
    }
}

fn window(app: &str, title: &str) -> Window {
    Window {
        app_name: app.to_string(),
        title: title.to_string(),
        bundle_id: "com.apple.dt.Xcode".to_string(),
        path: "/Applications/Xcode.app".to_string(),
        pid: 42,
    }
}

fn tracker() -> EventTracker {
    EventTracker::new(vec![
        "com.apple.dt.Xcode".to_string(),
        "com.apple.dt.Xcode".to_string(),
        "com.microsoft.VSCode".to_string(),
    ])
}

#[test]
fn new_tracker_drops_repeated_ids() {
    let t = tracker();
    assert_eq!(t.allowed_ids, vec!["com.apple.dt.Xcode".to_string(), "com.microsoft.VSCode".to_string()]);
    assert!(t.active_event.is_none());
}

#[test]
fn ignored_and_untracked_apps_are_not_admitted() {
    let t = tracker();
    assert!(t.admits("com.apple.dt.Xcode"));
    assert!(!t.admits("com.microsoft.VSCode"));
    assert!(!t.admits("com.apple.Safari"));
}

#[test]
fn first_activity_starts_an_event() {
    let mut t = tracker();
    let r = t.track_event("Xcode".to_string(), "com.apple.dt.Xcode", details("a.swift"), None, 10 * SEC);
    assert!(r.is_none());
    let e = t.active_event.as_ref().unwrap();
    assert_eq!(e.timestamp, Some(10 * SEC));
    assert_eq!(e.entity_name.as_deref(), Some("a.swift"));
    assert_eq!(e.entity_type, Some(Entity::File));
    assert_eq!(e.category, Category::Coding);
    assert_eq!(e.duration, None);
}

#[test]
fn same_app_and_entity_continue() {
    let mut t = tracker();
    t.track_event("Xcode".to_string(), "com.apple.dt.Xcode", details("a.swift"), None, 10 * SEC);
    let r = t.track_event("Xcode".to_string(), "com.apple.dt.Xcode", details("a.swift"), None, 50 * SEC);
    assert!(r.is_none());
    assert_eq!(t.active_event.as_ref().unwrap().timestamp, Some(10 * SEC));
}

#[test]
fn switching_entity_stores_the_previous_event() {
    let mut t = tracker();
    t.track_event("Xcode".to_string(), "com.apple.dt.Xcode", details("a.swift"), None, 10 * SEC);
    let r = t
        .track_event("Xcode".to_string(), "com.apple.dt.Xcode", details("b.swift"), None, 25 * SEC + 7)
        .unwrap();
    assert_eq!(r.entity_name.as_deref(), Some("a.swift"));
    assert_eq!(r.duration, Some(15));
    assert_eq!(r.end_timestamp, Some(25 * SEC + 7));
    assert_eq!(t.active_event.as_ref().unwrap().entity_name.as_deref(), Some("b.swift"));
}

#[test]
fn untracked_app_ends_the_event() {
    let mut t = tracker();
    t.track_event("Xcode".to_string(), "com.apple.dt.Xcode", details("a.swift"), None, 10 * SEC);
    let r = t.track_event("Safari".to_string(), "com.apple.Safari", details("x"), None, 13 * SEC);
    assert_eq!(r.unwrap().duration, Some(3));
    assert!(t.active_event.is_none());
}

#[test]
fn sub_second_events_are_dropped() {
    let mut t = tracker();
    t.track_event("Xcode".to_string(), "com.apple.dt.Xcode", details("a.swift"), None, 10 * SEC);
    assert!(t.end_active_event_at(10 * SEC + 999_999_999).is_none());
    assert!(t.active_event.is_none());
    assert!(t.end_active_event_at(20 * SEC).is_none());
}

#[test]
fn finishing_an_event() {
    let e = Event {
        timestamp: Some(0),
        duration: None,
        category: Category::Coding,
        app_name: "Xcode".to_string(),
        entity_name: None,
        entity_type: None,
        project_name: None,
        project_path: None,
        branch_name: None,
        language_name: None,
        end_timestamp: None,
    };
    let f = finish_event(e.duplicate(), 2 * SEC).unwrap();
    assert_eq!(f.duration, Some(2));
    assert_eq!(f.end_timestamp, Some(2 * SEC));
    assert_eq!(f.timestamp, Some(0));
    let no_start = Event { timestamp: None, ..e.duplicate() };
    assert!(finish_event(no_start, 5 * SEC).is_none());
    assert!(finish_event(e, -SEC).is_none());
}

#[test]
fn stored_event_names() {
    let e = Event {
        timestamp: Some(1),
        duration: Some(3),
        category: Category::CodeReviewing,
        app_name: "Safari".to_string(),
        entity_name: Some("/pulls".to_string()),
        entity_type: Some(Entity::Url),
        project_name: None,
        project_path: None,
        branch_name: None,
        language_name: None,
        end_timestamp: Some(9),
    };
    let s = StoredEvent::from_event(e);
    assert_eq!(s.category.as_deref(), Some("Code Reviewing"));
    assert_eq!(s.entity_type.as_deref(), Some("Url"));
    assert_eq!(s.source_name, SOURCE);
    assert_eq!(s.source_name, "skopio-desktop");
    assert_eq!(s.duration, Some(3));
}

#[test]
fn a_window_is_tracked_once() {
    let mut t = tracker();
    assert!(matches!(t.track_window(window("Xcode", "main.swift"), 0), TrackerAction::Track(_)));
    assert!(matches!(t.track_window(window("Xcode", "main.swift"), 0), TrackerAction::Idle));
    assert!(matches!(t.track_window(window("Xcode", "other.swift"), 0), TrackerAction::Track(_)));
}

#[test]
fn afk_signal_stores_and_forgets_the_window() {
    let mut t = tracker();
    t.track_window(window("Xcode", "main.swift"), 0);
    t.track_event("Xcode".to_string(), "com.apple.dt.Xcode", details("main.swift"), None, 0);
    match t.on_signal(TrackerSignal::AfkStarted { at: 4 * SEC }, None) {
        TrackerAction::Store(e) => assert_eq!(e.duration, Some(4)),
        _ => panic!("expected a stored event"),
    }
    assert!(t.last_state.is_none());
    assert!(matches!(
        t.on_signal(TrackerSignal::UserActive { now: 5 * SEC }, Some(window("Xcode", "main.swift"))),
        TrackerAction::Track(_)
    ));
}

#[test]
fn wake_without_user_does_nothing() {
    let mut t = tracker();
    assert!(matches!(
        t.on_signal(TrackerSignal::DidWake { user_active: false, now: 0 }, Some(window("Xcode", "a"))),
        TrackerAction::Idle
    ));
    assert!(matches!(
        t.on_signal(TrackerSignal::DidWake { user_active: true, now: 0 }, Some(window("Xcode", "a"))),
        TrackerAction::Track(_)
    ));
    assert!(matches!(t.on_signal(TrackerSignal::WindowClosed { now: 0 }, None), TrackerAction::Idle));
}

#[test]
fn changing_tracked_apps_retracks_current_window() {
    let mut t = tracker();
    t.track_window(window("Xcode", "a"), 0);
    t.track_event("Xcode".to_string(), "com.apple.dt.Xcode", details("a"), None, 0);
    let r = t.set_tracked_apps(vec!["com.apple.Safari".to_string()], Some(window("Xcode", "a")), 2 * SEC);
    // Xcode is no longer tracked: its activity ends, no details are asked for
    match r {
        TrackerAction::Store(e) => assert_eq!(e.duration, Some(2)),
        _ => panic!("expected a stored event"),
    }
    assert!(t.active_event.is_none());
    assert_eq!(t.allowed_ids, vec!["com.apple.Safari".to_string()]);
    let back = t.set_tracked_apps(vec!["com.apple.dt.Xcode".to_string()], Some(window("Xcode", "a")), 3 * SEC);
    assert!(matches!(back, TrackerAction::Track(_)));
}

#[test]
fn windows_of_untracked_apps_end_the_activity() {
    let mut t = tracker();
    t.track_event("Xcode".to_string(), "com.apple.dt.Xcode", details("a"), None, 0);
    let mut code = window("Code", "x.rs");
    code.bundle_id = "com.microsoft.VSCode".to_string();
    match t.on_signal(TrackerSignal::WindowChanged { window: code, now: 5 * SEC }, None) {
        TrackerAction::Store(e) => assert_eq!(e.duration, Some(5)),
        _ => panic!("expected a stored event"),
    }
    assert!(t.active_event.is_none());
}

#[test]
fn stop_tracking_ends_the_event() {
    let mut t = tracker();
    t.track_event("Xcode".to_string(), "com.apple.dt.Xcode", details("a"), None, 0);
    assert_eq!(t.stop_tracking(3 * SEC).unwrap().duration, Some(3));
    assert!(t.stop_tracking(9 * SEC).is_none());
}

#[test]
fn window_readings_are_published_on_change() {
    assert!(!window_changed(&None, &None));
    assert!(window_changed(&None, &Some(window("Xcode", "a"))));
    assert!(window_changed(&Some(window("Xcode", "a")), &None));
    assert!(!window_changed(&Some(window("Xcode", "a")), &Some(window("Xcode", "a"))));
    assert!(window_changed(&Some(window("Xcode", "a")), &Some(window("Xcode", "b"))));
    let mut moved = window("Xcode", "a");
    moved.pid = 43;
    assert!(window_changed(&Some(window("Xcode", "a")), &Some(moved)));
}

#[test]
fn window_readings_fill_in_unknowns() {
    let w = window_from(Some("Xcode".to_string()), None, None, 7, Some("main.swift".to_string()));
    assert_eq!(w.app_name, "Xcode");
    assert_eq!(w.bundle_id, "unknown");
    assert_eq!(w.path, "unknown");
    assert_eq!(w.title, "main.swift");
    assert_eq!(w.pid, 7);
}

#[test]
fn the_poller_never_publishes_a_window_twice_in_a_row() {
    let readings = vec![
        Some(window("Xcode", "a")),
        Some(window("Xcode", "a")),
        None,
        None,
        Some(window("Xcode", "a")),
        Some(window("Safari", "a")),
        Some(window("Safari", "a")),
    ];
    let mut last: Option<Window> = None;
    let mut sent: Vec<String> = Vec::new();
    for r in readings {
        if window_changed(&last, &r) {
            sent.push(r.as_ref().map(|w| w.app_name.clone()).unwrap_or_default());
            last = r;
        }
    }
    assert_eq!(sent, vec!["Xcode", "", "Xcode", "Safari"]);
}
