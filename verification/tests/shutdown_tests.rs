use skopio::shutdown::{
    request_app_shutdown_with_action, shutdown_tasks, AppShutdown, AppShutdownAction, RunningParts,
    ShutdownStep, ShutdownTask,
};

#[test]
fn shutdown_begins_once() {
    let mut s = AppShutdown::new();
    assert!(!s.is_started() && !s.is_complete());
    assert!(s.holds_close());
    assert!(s.begin());
    assert!(!s.begin());
    assert!(s.is_started());
    s.mark_complete();
    assert!(s.is_complete());
    assert!(!s.holds_close());
}

#[test]
fn shutdown_requests() {
    let mut none: Option<AppShutdown> = None;
    assert_eq!(
        request_app_shutdown_with_action(&mut none, AppShutdownAction::Exit),
        ShutdownStep::Immediate(AppShutdownAction::Exit)
    );
    assert!(none.is_none());
    let mut state = Some(AppShutdown::new());
    assert_eq!(
        request_app_shutdown_with_action(&mut state, AppShutdownAction::Restart),
        ShutdownStep::Run(AppShutdownAction::Restart)
    );
    assert_eq!(
        request_app_shutdown_with_action(&mut state, AppShutdownAction::Exit),
        ShutdownStep::AlreadyRunning
    );
    assert!(state.unwrap().is_started());
}

#[test]
fn shutdown_task_order() {
    let all = RunningParts {
        mouse_tracker: true,
        keyboard_tracker: true,
        window_tracker: true,
        power_monitor: true,
        goal_service: true,
        event_tracker: true,
        afk_tracker: true,
        buffered_service: true,
    };
    assert_eq!(
        shutdown_tasks(&all),
        vec![
            ShutdownTask::StopMouseTracker,
            ShutdownTask::StopKeyboardTracker,
            ShutdownTask::StopWindowTracker,
            ShutdownTask::StopPowerMonitor,
            ShutdownTask::StopGoalService,
            ShutdownTask::StopEventTracker,
            ShutdownTask::StopAfkTracker,
            ShutdownTask::FlushEventTracker,
            ShutdownTask::FlushAfkTracker,
            ShutdownTask::StopBufferedService,
        ]
    );
    let some = RunningParts { mouse_tracker: false, power_monitor: false, goal_service: false, ..all };
    assert_eq!(
        shutdown_tasks(&some),
        vec![
            ShutdownTask::StopKeyboardTracker,
            ShutdownTask::StopWindowTracker,
            ShutdownTask::StopEventTracker,
            ShutdownTask::StopAfkTracker,
            ShutdownTask::FlushEventTracker,
            ShutdownTask::FlushAfkTracker,
            ShutdownTask::StopBufferedService,
        ]
    );
    let none = RunningParts {
        mouse_tracker: false,
        keyboard_tracker: false,
        window_tracker: false,
        power_monitor: false,
        goal_service: false,
        event_tracker: false,
        afk_tracker: false,
        buffered_service: false,
    };
    assert!(shutdown_tasks(&none).is_empty());
}

#[test]
fn many_requests_run_the_sequence_once() {
    let mut state = Some(AppShutdown::new());
    let mut runs = 0;
    for i in 0..20 {
        let action = if i % 2 == 0 { AppShutdownAction::Exit } else { AppShutdownAction::Restart };
        if let ShutdownStep::Run(_) = request_app_shutdown_with_action(&mut state, action) {
            runs += 1;
        }
    }
    assert_eq!(runs, 1);
}
