use skopio::clock::{UTC_MAX_SECS, UTC_MIN_SECS};
use skopio::goals::{
    current_period_key, goal_filters, goal_notification, goal_reached, goal_step_shown,
    goal_step_start, goal_step_total, is_today_excluded, period_key, weekday_to_str, Goal,
    GoalStep, TimeSpan, Weekday,
};

fn goal() -> Goal {
    Goal {
        id: 1,
        name: "Deep work".to_string(),
        target_seconds: 3600,
        time_span: TimeSpan::Day,
        excluded_days: vec!["Saturday".to_string(), "SUNDAY".to_string()],
        use_apps: true,
        apps: vec!["Xcode".to_string()],
        use_categories: false,
        categories: vec!["Coding".to_string()],
    }
}

#[test]
fn weekday_names() {
    assert_eq!(weekday_to_str(Weekday::Mon), "monday");
    assert_eq!(weekday_to_str(Weekday::Sun), "sunday");
}

#[test]
fn excluded_days_ignore_case() {
    let g = goal();
    assert!(is_today_excluded(&g.excluded_days, Weekday::Sat));
    assert!(is_today_excluded(&g.excluded_days, Weekday::Sun));
    assert!(!is_today_excluded(&g.excluded_days, Weekday::Mon));
    assert!(!is_today_excluded(&vec![], Weekday::Mon));
}

#[test]
fn goals_are_reached_at_the_target() {
    let g = goal();
    assert!(!goal_reached(&g, 3599));
    assert!(goal_reached(&g, 3600));
}

#[test]
fn goal_query_filters() {
    let (apps, cats) = goal_filters(&goal());
    assert_eq!(apps, Some(vec!["Xcode".to_string()]));
    assert_eq!(cats, None);
}

#[test]
fn goal_notifications() {
    let n = goal_notification(&goal());
    assert_eq!(n.title, "Goal completed!");
    assert_eq!(n.duration_ms, 7000);
    assert_eq!(n.message.as_deref(), Some("Deep work"));
    assert_eq!(n.sound_file.as_deref(), Some("goal_success.mp3"));
}

#[test]
fn period_keys() {
    let d = (2024, 3, 7, 2024, 10);
    assert_eq!(period_key(TimeSpan::Day, d), "2024-03-07");
    assert_eq!(period_key(TimeSpan::Week, d), "2024-W10");
    assert_eq!(period_key(TimeSpan::Month, d), "2024-03");
    assert_eq!(period_key(TimeSpan::Year, d), "2024");
    assert_eq!(period_key(TimeSpan::Year, (987, 1, 1, 987, 1)), "0987");
    assert_eq!(period_key(TimeSpan::Year, (-44, 1, 1, -44, 1)), "-0044");
    assert_eq!(period_key(TimeSpan::Year, (12345, 1, 1, 12345, 1)), "+12345");
}

#[test]
fn current_period_keys_from_instants() {
    // 2024-12-30 is in ISO week 1 of 2025
    let t = 1_735_560_000;
    assert_eq!(current_period_key(TimeSpan::Day, t).unwrap(), "2024-12-30");
    assert_eq!(current_period_key(TimeSpan::Week, t).unwrap(), "2025-W1");
    assert_eq!(current_period_key(TimeSpan::Month, t).unwrap(), "2024-12");
    assert_eq!(current_period_key(TimeSpan::Year, 0).unwrap(), "1970");
    assert!(current_period_key(TimeSpan::Day, i64::MAX).is_none());
}

#[test]
fn goal_check_steps() {
    let g = goal();
    assert!(matches!(goal_step_start(&g, Weekday::Sat), GoalStep::Skip));
    assert!(matches!(goal_step_start(&g, Weekday::Tue), GoalStep::FetchTotal));
    assert!(matches!(goal_step_total(&g, 10, 1_735_560_000), GoalStep::Skip));
    let key = match goal_step_total(&g, 3600, 1_735_560_000) {
        GoalStep::CheckShown { period_key } => period_key,
        other => panic!("unexpected {:?}", other),
    };
    assert_eq!(key, "2024-12-30");
    assert!(matches!(goal_step_shown(&g, key.clone(), true), GoalStep::Skip));
    match goal_step_shown(&g, key, false) {
        GoalStep::Notify { payload, period_key } => {
            assert_eq!(period_key, "2024-12-30");
            assert_eq!(payload.message.as_deref(), Some("Deep work"));
        }
        other => panic!("unexpected {:?}", other),
    }
}

#[test]
fn period_keys_at_the_representable_bounds() {
    assert_eq!(current_period_key(TimeSpan::Year, UTC_MAX_SECS).unwrap(), "+262142");
    assert!(current_period_key(TimeSpan::Year, UTC_MAX_SECS + 1).is_none());
    assert_eq!(current_period_key(TimeSpan::Day, UTC_MIN_SECS).unwrap(), "-262143-01-01");
    assert!(current_period_key(TimeSpan::Year, UTC_MIN_SECS - 1).is_none());
}

#[test]
fn a_goal_is_notified_once_per_period() {
    let g = goal();
    let mut shown: std::collections::HashSet<String> = std::collections::HashSet::new();
    let mut notified = Vec::new();
    let day = 86_400;
    for (i, total) in [4000i64, 5000, 10, 3600, 7200].iter().enumerate() {
        let now = 1_735_560_000 + (i as i64 / 2) * day;
        if let GoalStep::CheckShown { period_key } = goal_step_total(&g, *total, now) {
            let already = shown.contains(&period_key);
            if let GoalStep::Notify { period_key, .. } = goal_step_shown(&g, period_key, already) {
                shown.insert(period_key.clone());
                notified.push(period_key);
            }
        }
    }
    assert_eq!(notified, vec!["2024-12-30".to_string(), "2024-12-31".to_string(), "2025-01-01".to_string()]);
}
