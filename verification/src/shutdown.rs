//! The application's shutdown sequence: it starts once, however many
//! times it is requested, and closing is held back until it completes.

use vstd::prelude::*;

verus! {

/// What happens once the shutdown sequence is over.
#[derive(Debug, Clone, Copy, PartialEq, Eq, Structural)]
pub enum AppShutdownAction {
    Exit,
    Restart,
}

/// Progress of the shutdown sequence.
#[derive(Debug, Clone, Copy, PartialEq, Eq, Structural)]
pub struct AppShutdown {
    pub started: bool,
    pub complete: bool,
}

/// What a shutdown request leads to.
#[derive(Debug, Clone, Copy, PartialEq, Eq, Structural)]
pub enum ShutdownStep {
    /// No shutdown sequence is set up: exit or restart right away.
    Immediate(AppShutdownAction),
    /// The sequence is already running: nothing more to do.
    AlreadyRunning,
    /// Run the sequence, mark it complete, then exit or restart.
    Run(AppShutdownAction),
}

impl AppShutdown {
    /// Nothing started.
    pub fn new() -> (s: AppShutdown)
        ensures
            !s.started && !s.complete,
    {
        AppShutdown { started: false, complete: false }
    }

    /// Starts the sequence; true only for the call that started it.
    pub fn begin(&mut self) -> (r: bool)
        ensures
            r == !old(self).started,
            final(self).started,
            final(self).complete == old(self).complete,
    {
        if self.started {
            false
        } else {
            self.started = true;
            true
        }
    }

    /// Whether the sequence has started.
    pub fn is_started(&self) -> (r: bool)
        ensures
            r == self.started,
    {
        self.started
    }

    /// Whether the sequence is over.
    pub fn is_complete(&self) -> (r: bool)
        ensures
            r == self.complete,
    {
        self.complete
    }

    /// Marks the sequence as over.
    pub fn mark_complete(&mut self)
        ensures
            final(self).complete,
            final(self).started == old(self).started,
    {
        self.complete = true;
    }

    /// Whether a request to close the main window or exit must be held
    /// back (and turned into a shutdown request): until the sequence is
    /// over.
    pub fn holds_close(&self) -> (r: bool)
        ensures
            r == !self.complete,
    {
        !self.complete
    }
}

/// The state after a `begin`, and whether that call started the sequence.
pub open spec fn after_begin(s: AppShutdown) -> (AppShutdown, bool) {
    (AppShutdown { started: true, ..s }, !s.started)
}

/// The shutdown state after a request with `action`, and what the
/// request leads to: with no state set up, exit or restart at once;
/// otherwise the request that starts the sequence runs it, and any other
/// finds it running.
pub open spec fn request_outcome(state: Option<AppShutdown>, action: AppShutdownAction) -> (Option<AppShutdown>, ShutdownStep) {
    match state {
        None => (None, ShutdownStep::Immediate(action)),
        Some(s) => (
            Some(after_begin(s).0),
            if after_begin(s).1 { ShutdownStep::Run(action) } else { ShutdownStep::AlreadyRunning },
        ),
    }
}

/// Decides what a request to shut down with `action` leads to, given the
/// shutdown state if one is set up.
pub fn request_app_shutdown_with_action(state: &mut Option<AppShutdown>, action: AppShutdownAction) -> (r: ShutdownStep)
    ensures
        (*final(state), r) == request_outcome(*old(state), action),
{
    match state {
        None => ShutdownStep::Immediate(action),
        Some(s) => {
            if s.begin() {
                ShutdownStep::Run(action)
            } else {
                ShutdownStep::AlreadyRunning
            }
        },
    }
}

/// Which parts of the application are running.
#[derive(Debug, Clone, Copy, PartialEq, Eq, Structural)]
pub struct RunningParts {
    pub mouse_tracker: bool,
    pub keyboard_tracker: bool,
    pub window_tracker: bool,
    pub power_monitor: bool,
    pub goal_service: bool,
    pub event_tracker: bool,
    pub afk_tracker: bool,
    pub buffered_service: bool,
}

/// One task of the shutdown sequence.
#[derive(Debug, Clone, Copy, PartialEq, Eq, Structural)]
pub enum ShutdownTask {
    StopMouseTracker,
    StopKeyboardTracker,
    StopWindowTracker,
    StopPowerMonitor,
    StopGoalService,
    StopEventTracker,
    StopAfkTracker,
    FlushEventTracker,
    FlushAfkTracker,
    StopBufferedService,
}

/// `t` if `on`, else nothing.
pub open spec fn task_if(on: bool, t: ShutdownTask) -> Seq<ShutdownTask> {
    if on { seq![t] } else { Seq::empty() }
}

/// The shutdown sequence for the running parts: the input, window and
/// power trackers and the goal service stop first; then the event and AFK
/// trackers stop and flush (the event tracker first each time); the
/// buffered writer stops last, after everything has been handed to it.
pub open spec fn shutdown_tasks_of(p: RunningParts) -> Seq<ShutdownTask> {
    task_if(p.mouse_tracker, ShutdownTask::StopMouseTracker)
        + task_if(p.keyboard_tracker, ShutdownTask::StopKeyboardTracker)
        + task_if(p.window_tracker, ShutdownTask::StopWindowTracker)
        + task_if(p.power_monitor, ShutdownTask::StopPowerMonitor)
        + task_if(p.goal_service, ShutdownTask::StopGoalService)
        + task_if(p.event_tracker, ShutdownTask::StopEventTracker)
        + task_if(p.afk_tracker, ShutdownTask::StopAfkTracker)
        + task_if(p.event_tracker, ShutdownTask::FlushEventTracker)
        + task_if(p.afk_tracker, ShutdownTask::FlushAfkTracker)
        + task_if(p.buffered_service, ShutdownTask::StopBufferedService)
}

fn push_if(v: &mut Vec<ShutdownTask>, on: bool, t: ShutdownTask)
    ensures
        final(v)@ == old(v)@ + task_if(on, t),
{
    if on {
        v.push(t);
    } else {
        assert(old(v)@ + task_if(on, t) =~= old(v)@);
    }
}

/// The tasks of the shutdown sequence, in order (see [`shutdown_tasks_of`]).
pub fn shutdown_tasks(p: &RunningParts) -> (r: Vec<ShutdownTask>)
    ensures
        r@ == shutdown_tasks_of(*p),
{
    let mut v: Vec<ShutdownTask> = Vec::new();
    push_if(&mut v, p.mouse_tracker, ShutdownTask::StopMouseTracker);
    push_if(&mut v, p.keyboard_tracker, ShutdownTask::StopKeyboardTracker);
    push_if(&mut v, p.window_tracker, ShutdownTask::StopWindowTracker);
    push_if(&mut v, p.power_monitor, ShutdownTask::StopPowerMonitor);
    push_if(&mut v, p.goal_service, ShutdownTask::StopGoalService);
    push_if(&mut v, p.event_tracker, ShutdownTask::StopEventTracker);
    push_if(&mut v, p.afk_tracker, ShutdownTask::StopAfkTracker);
    push_if(&mut v, p.event_tracker, ShutdownTask::FlushEventTracker);
    push_if(&mut v, p.afk_tracker, ShutdownTask::FlushAfkTracker);
    push_if(&mut v, p.buffered_service, ShutdownTask::StopBufferedService);
    assert(v@ =~= shutdown_tasks_of(*p));
    v
}

/// When the buffered writer runs, it is stopped once and last: after the
/// trackers were flushed into it.
pub proof fn lemma_writer_stops_last(p: RunningParts)
    requires
        p.buffered_service,
    ensures
        shutdown_tasks_of(p).last() == ShutdownTask::StopBufferedService,
        forall|i: int| 0 <= i < shutdown_tasks_of(p).len() - 1
            ==> shutdown_tasks_of(p)[i] != ShutdownTask::StopBufferedService,
{
}

/// However often shutdown is requested, the sequence is started once: a
/// request after one that started it finds it running.
pub proof fn lemma_begin_once(s: AppShutdown)
    ensures
        !after_begin(after_begin(s).0).1,
        after_begin(after_begin(s).0).0 == after_begin(s).0,
{
}

/// What a series of shutdown requests leads to, one step per request.
pub open spec fn request_outcomes(state: Option<AppShutdown>, actions: Seq<AppShutdownAction>) -> Seq<ShutdownStep>
    decreases actions.len(),
{
    if actions.len() == 0 {
        Seq::empty()
    } else {
        let (s2, step) = request_outcome(state, actions[0]);
        seq![step] + request_outcomes(s2, actions.drop_first())
    }
}

/// However many requests arrive, the shutdown sequence runs at most once:
/// no two requests both run it; only the first can, and only when the
/// sequence had not started; every other request finds it running; and
/// without a shutdown state every request exits or restarts at once.
pub proof fn lemma_sequence_runs_once(state: Option<AppShutdown>, actions: Seq<AppShutdownAction>)
    ensures
        request_outcomes(state, actions).len() == actions.len(),
        forall|i: int, j: int| 0 <= i < actions.len() && 0 <= j < actions.len()
            && #[trigger] request_outcomes(state, actions)[i] is Run
            && #[trigger] request_outcomes(state, actions)[j] is Run ==> i == j,
        forall|i: int| 0 <= i < actions.len() ==> (#[trigger] request_outcomes(state, actions)[i] == match state {
            None => ShutdownStep::Immediate(actions[i]),
            Some(s) => if i == 0 && !s.started {
                ShutdownStep::Run(actions[0])
            } else {
                ShutdownStep::AlreadyRunning
            },
        }),
    decreases actions.len(),
{
    if actions.len() > 0 {
        let (s2, step) = request_outcome(state, actions[0]);
        let rest = actions.drop_first();
        lemma_sequence_runs_once(s2, rest);
        assert forall|i: int| 0 <= i < actions.len() implies (#[trigger] request_outcomes(state, actions)[i] == match state {
            None => ShutdownStep::Immediate(actions[i]),
            Some(s) => if i == 0 && !s.started {
                ShutdownStep::Run(actions[0])
            } else {
                ShutdownStep::AlreadyRunning
            },
        }) by {
            if i > 0 {
                assert(request_outcomes(state, actions)[i] == request_outcomes(s2, rest)[i - 1]);
                assert(rest[i - 1] == actions[i]);
            }
        }
    }
}

} // verus!
