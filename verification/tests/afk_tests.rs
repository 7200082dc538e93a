use skopio::afk::{AFKTracker, AfkEvent, AfkSignal, AfkState};

const SEC: i64 = 1_000_000_000;

#[test]
fn new_tracker_is_active() {
    let t = AFKTracker::new(5 * SEC);
    assert_eq!(t.last_activity, 5 * SEC);
    assert_eq!(t.afk_start, None);
    assert_eq!(t.subscribe_state(), AfkState::Active);
}

#[test]
fn afk_start_is_backdated_to_the_timeout() {
    assert_eq!(AFKTracker::afk_start_time(10 * SEC, 60), 70 * SEC);
}

#[test]
fn idle_check_before_timeout_changes_nothing() {
    let mut t = AFKTracker::new(0);
    t.mark_afk_idle_at(59 * SEC + 999_999_999, 60);
    assert_eq!(t, AFKTracker::new(0));
}

#[test]
fn idle_check_after_timeout_opens_period() {
    let mut t = AFKTracker::new(0);
    t.mark_afk_idle_at(90 * SEC, 60);
    assert_eq!(t.afk_start, Some(60 * SEC));
    assert_eq!(t.subscribe_state(), AfkState::Afk { started_at: 60 * SEC });
    // a second check does not move the start
    t.mark_afk_idle_at(200 * SEC, 60);
    assert_eq!(t.afk_start, Some(60 * SEC));
}

#[test]
fn input_closes_and_records_period() {
    let mut t = AFKTracker::new(0);
    let ev = t.handle_input_activity(100 * SEC, 60);
    assert_eq!(
        ev,
        Some(AfkEvent { afk_start: 60 * SEC, afk_end: 100 * SEC, duration: 40 })
    );
    assert_eq!(t.afk_start, None);
    assert_eq!(t.last_activity, 100 * SEC);
    assert_eq!(t.subscribe_state(), AfkState::Active);
}

#[test]
fn input_within_timeout_records_nothing() {
    let mut t = AFKTracker::new(0);
    assert_eq!(t.handle_input_activity(30 * SEC, 60), None);
    assert_eq!(t.last_activity, 30 * SEC);
}

#[test]
fn short_return_is_not_recorded() {
    assert_eq!(AFKTracker::record_afk_return(10 * SEC, 10 * SEC + 999_999_999), None);
    assert_eq!(AFKTracker::record_afk_return(10 * SEC, 5 * SEC), None);
    assert_eq!(
        AFKTracker::record_afk_return(10 * SEC, 12 * SEC + 500_000_000),
        Some(AfkEvent { afk_start: 10 * SEC, afk_end: 12 * SEC + 500_000_000, duration: 2 })
    );
}

#[test]
fn stop_closes_open_period_whatever_its_length() {
    let mut t = AFKTracker::new(0);
    t.mark_afk_idle_at(60 * SEC, 60);
    let ev = t.stop_tracking(60 * SEC);
    assert_eq!(ev, Some(AfkEvent { afk_start: 60 * SEC, afk_end: 60 * SEC, duration: 0 }));
    assert_eq!(t.afk_start, None);
    let mut idle = AFKTracker::new(0);
    assert_eq!(idle.stop_tracking(5 * SEC), None);
}

#[test]
fn long_idle_then_input_is_recorded() {
    // idle past the timeout by two seconds, then input: the period is stored
    let mut t = AFKTracker::new(3 * SEC);
    let ev = t.handle_input_activity(3 * SEC + 62 * SEC, 60).unwrap();
    assert_eq!(ev.afk_start, 63 * SEC);
    assert_eq!(ev.duration, 2);
}

#[test]
fn loop_signals() {
    let mut t = AFKTracker::new(0);
    assert_eq!(t.on_signal(AfkSignal::Tick { now: 30 * SEC }, 60), None);
    assert_eq!(t.afk_start, None);
    assert_eq!(t.on_signal(AfkSignal::Power { at: 61 * SEC }, 60), None);
    assert_eq!(t.afk_start, Some(60 * SEC));
    assert_eq!(t.on_signal(AfkSignal::PowerLagged { now: 70 * SEC }, 60), None);
    assert_eq!(t.afk_start, Some(60 * SEC));
    let ev = t.on_signal(AfkSignal::Input { at: 65 * SEC }, 60);
    assert_eq!(ev, Some(AfkEvent { afk_start: 60 * SEC, afk_end: 65 * SEC, duration: 5 }));
    assert_eq!(t.subscribe_state(), AfkState::Active);
    assert_eq!(t.on_signal(AfkSignal::InputLagged { now: 66 * SEC }, 60), None);
    assert_eq!(t.last_activity, 66 * SEC);
}
