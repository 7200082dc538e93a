//! Away-from-keyboard tracking: when the user has been idle for the
//! configured timeout an AFK period opens, backdated to the moment the
//! timeout elapsed; the next input closes it and records it.

use vstd::prelude::*;
use crate::clock::{lemma_whole_seconds_small, whole_seconds, seconds_between, shifted, shift_fits, shift_seconds};

verus! {

/// Whether the user is at the keyboard, as published to other trackers.
#[derive(Debug, Clone, Copy, PartialEq, Eq, Structural)]
pub enum AfkState {
    Active,
    Afk { started_at: i64 },
}

/// A closed AFK period, to be stored.
#[derive(Debug, Clone, Copy, PartialEq, Eq, Structural)]
pub struct AfkEvent {
    pub afk_start: i64,
    pub afk_end: i64,
    pub duration: i64,
}

/// The AFK tracker's state. Instants are nanoseconds since the epoch.
#[derive(Debug, Clone, Copy, PartialEq, Eq, Structural)]
pub struct AFKTracker {
    /// When the user was last seen active.
    pub last_activity: i64,
    /// Start of the open AFK period, if any.
    pub afk_start: Option<i64>,
    /// The state last published.
    pub state: AfkState,
}

/// An open AFK period is the published state.
pub open spec fn afk_wf(t: AFKTracker) -> bool {
    t.afk_start matches Some(s) ==> t.state == (AfkState::Afk { started_at: s })
}

/// The moment an AFK period starts: `timeout` seconds after the last
/// activity (the timeout is taken as a signed count of seconds).
pub open spec fn afk_start_at(last_activity: int, timeout_secs: u64) -> int {
    shifted(last_activity, (timeout_secs as i64) as int)
}

/// Whether `now` is at least the timeout past the last activity.
pub open spec fn idle_past_timeout(t: AFKTracker, now: i64, timeout_secs: u64) -> bool {
    whole_seconds(now - t.last_activity) >= (timeout_secs as i64) as int
}

/// Whether an idle check at `now` opens an AFK period.
pub open spec fn opens_afk(t: AFKTracker, now: i64, timeout_secs: u64) -> bool {
    idle_past_timeout(t, now, timeout_secs) && t.afk_start is None
}

/// The start of an AFK period opened at `now` is representable.
pub open spec fn idle_check_ok(t: AFKTracker, now: i64, timeout_secs: u64) -> bool {
    opens_afk(t, now, timeout_secs) ==> shift_fits(t.last_activity as int, (timeout_secs as i64) as int)
}

/// The tracker after an idle check at `now`.
pub open spec fn after_idle_check(t: AFKTracker, now: i64, timeout_secs: u64) -> AFKTracker {
    if opens_afk(t, now, timeout_secs) {
        let s = afk_start_at(t.last_activity as int, timeout_secs) as i64;
        AFKTracker { afk_start: Some(s), state: AfkState::Afk { started_at: s }, ..t }
    } else {
        t
    }
}

/// The AFK period from `start` closed at `now`, unless it lasted no
/// whole second.
pub open spec fn afk_return_event(start: i64, now: i64) -> Option<AfkEvent> {
    let d = whole_seconds(now - start);
    let d = if d < 0 { 0 } else { d };
    if d == 0 {
        None
    } else {
        Some(AfkEvent { afk_start: start, afk_end: now, duration: d as i64 })
    }
}

/// The tracker after input at `now`: the idle check runs first, then any
/// open AFK period closes and the user is active from `now`.
pub open spec fn after_input(t: AFKTracker, now: i64, timeout_secs: u64) -> (AFKTracker, Option<AfkEvent>) {
    let m = after_idle_check(t, now, timeout_secs);
    let ev = match m.afk_start {
        Some(s) => afk_return_event(s, now),
        None => None,
    };
    (AFKTracker { last_activity: now, afk_start: None, state: AfkState::Active }, ev)
}

/// The tracker after it stops at `now`: an open AFK period is closed and
/// recorded whatever its length.
pub open spec fn after_stop(t: AFKTracker, now: i64) -> (AFKTracker, Option<AfkEvent>) {
    match t.afk_start {
        Some(s) => (
            AFKTracker { afk_start: None, ..t },
            Some(AfkEvent { afk_start: s, afk_end: now, duration: whole_seconds(now - s) as i64 }),
        ),
        None => (t, None),
    }
}

impl AFKTracker {
    /// A tracker that saw the user active at `now`.
    pub fn new(now: i64) -> (t: AFKTracker)
        ensures
            t.last_activity == now,
            t.afk_start is None,
            t.state == AfkState::Active,
            afk_wf(t),
    {
        AFKTracker { last_activity: now, afk_start: None, state: AfkState::Active }
    }

    /// The start of an AFK period for the given last activity and timeout.
    pub fn afk_start_time(last_activity: i64, afk_timeout_secs: u64) -> (r: i64)
        requires
            shift_fits(last_activity as int, (afk_timeout_secs as i64) as int),
        ensures
            r == afk_start_at(last_activity as int, afk_timeout_secs),
    {
        shift_seconds(last_activity, afk_timeout_secs as i64)
    }

    /// Checks, at `now`, whether the user has been idle for the timeout;
    /// if so and no AFK period is open, opens one at the moment the
    /// timeout elapsed and publishes it.
    pub fn mark_afk_idle_at(&mut self, now: i64, timeout_secs: u64)
        requires
            idle_check_ok(*old(self), now, timeout_secs),
        ensures
            *final(self) == after_idle_check(*old(self), now, timeout_secs),
    {
        let idle = seconds_between(self.last_activity, now);
        if idle < timeout_secs as i64 {
            return;
        }
        if self.afk_start.is_some() {
            return;
        }
        let start = Self::afk_start_time(self.last_activity, timeout_secs);
        self.afk_start = Some(start);
        self.state = AfkState::Afk { started_at: start };
    }

    /// The AFK period from `afk_start_time` closed at `now`, when it lasted
    /// at least a whole second.
    pub fn record_afk_return(afk_start_time: i64, now: i64) -> (r: Option<AfkEvent>)
        ensures
            r == afk_return_event(afk_start_time, now),
    {
        let d = seconds_between(afk_start_time, now);
        let d = if d < 0 { 0 } else { d };
        if d == 0 {
            None
        } else {
            Some(AfkEvent { afk_start: afk_start_time, afk_end: now, duration: d })
        }
    }

    /// Handles user input at `now`: runs the idle check, closes any open
    /// AFK period (returning it for storage when it lasted a second or
    /// more) and marks the user active from `now`.
    pub fn handle_input_activity(&mut self, now: i64, timeout_secs: u64) -> (r: Option<AfkEvent>)
        requires
            idle_check_ok(*old(self), now, timeout_secs),
        ensures
            (*final(self), r) == after_input(*old(self), now, timeout_secs),
    {
        self.mark_afk_idle_at(now, timeout_secs);
        let start = self.afk_start;
        self.afk_start = None;
        let ev = match start {
            Some(s) => Self::record_afk_return(s, now),
            None => None,
        };
        self.last_activity = now;
        self.state = AfkState::Active;
        ev
    }

    /// Stops tracking at `now`, closing and returning any open AFK period.
    pub fn stop_tracking(&mut self, now: i64) -> (r: Option<AfkEvent>)
        ensures
            (*final(self), r) == after_stop(*old(self), now),
    {
        match self.afk_start {
            Some(s) => {
                let d = seconds_between(s, now);
                self.afk_start = None;
                Some(AfkEvent { afk_start: s, afk_end: now, duration: d })
            },
            None => None,
        }
    }

    /// The state last published.
    pub fn subscribe_state(&self) -> (r: AfkState)
        ensures
            r == self.state,
    {
        self.state
    }
}

/// What reaches the AFK tracker's loop.
#[derive(Debug, Clone, Copy, PartialEq, Eq, Structural)]
pub enum AfkSignal {
    /// The periodic idle check, at `now`.
    Tick { now: i64 },
    /// Input from the user at `at`.
    Input { at: i64 },
    /// Input events were missed; `now` is the current instant.
    InputLagged { now: i64 },
    /// The machine goes to sleep or wakes up at `at`.
    Power { at: i64 },
    /// Power events were missed; `now` is the current instant.
    PowerLagged { now: i64 },
}

/// The instant a signal is handled at.
pub open spec fn signal_instant(s: AfkSignal) -> i64 {
    match s {
        AfkSignal::Tick { now } => now,
        AfkSignal::Input { at } => at,
        AfkSignal::InputLagged { now } => now,
        AfkSignal::Power { at } => at,
        AfkSignal::PowerLagged { now } => now,
    }
}

/// The tracker after `s`, and the AFK period to store: input (or missed
/// input) is handled as input, anything else as an idle check.
pub open spec fn after_signal(t: AFKTracker, s: AfkSignal, timeout_secs: u64) -> (AFKTracker, Option<AfkEvent>) {
    match s {
        AfkSignal::Input { at } => after_input(t, at, timeout_secs),
        AfkSignal::InputLagged { now } => after_input(t, now, timeout_secs),
        _ => (after_idle_check(t, signal_instant(s), timeout_secs), None),
    }
}

impl AFKTracker {
    /// One step of the tracking loop: handles `s` with the current
    /// timeout, returning the AFK period to store, if any.
    pub fn on_signal(&mut self, s: AfkSignal, timeout_secs: u64) -> (r: Option<AfkEvent>)
        requires
            idle_check_ok(*old(self), signal_instant(s), timeout_secs),
        ensures
            (*final(self), r) == after_signal(*old(self), s, timeout_secs),
    {
        match s {
            AfkSignal::Input { at } => self.handle_input_activity(at, timeout_secs),
            AfkSignal::InputLagged { now } => self.handle_input_activity(now, timeout_secs),
            AfkSignal::Tick { now } => {
                self.mark_afk_idle_at(now, timeout_secs);
                None
            },
            AfkSignal::Power { at } => {
                self.mark_afk_idle_at(at, timeout_secs);
                None
            },
            AfkSignal::PowerLagged { now } => {
                self.mark_afk_idle_at(now, timeout_secs);
                None
            },
        }
    }
}

/// Every operation keeps an open AFK period published.
pub proof fn lemma_afk_wf_preserved(t: AFKTracker, now: i64, timeout_secs: u64)
    requires
        afk_wf(t),
    ensures
        afk_wf(after_idle_check(t, now, timeout_secs)),
        afk_wf(after_input(t, now, timeout_secs).0),
        afk_wf(after_stop(t, now).0),
{
}

/// An idle check changes nothing when repeated at the same instant.
pub proof fn lemma_idle_check_idempotent(t: AFKTracker, now: i64, timeout_secs: u64)
    ensures
        after_idle_check(after_idle_check(t, now, timeout_secs), now, timeout_secs)
            == after_idle_check(t, now, timeout_secs),
{
}

/// After input the user is active from that instant and no AFK period is
/// open; any AFK period recorded ends at the input, started when the
/// timeout had elapsed, and lasted at least one whole second.
pub proof fn lemma_input_closes_afk(t: AFKTracker, now: i64, timeout_secs: u64)
    requires
        idle_check_ok(t, now, timeout_secs),
    ensures
        after_input(t, now, timeout_secs).0.state == AfkState::Active,
        after_input(t, now, timeout_secs).0.afk_start is None,
        after_input(t, now, timeout_secs).0.last_activity == now,
        after_input(t, now, timeout_secs).1 matches Some(ev) ==> {
            &&& ev.afk_end == now
            &&& ev.duration >= 1
            &&& ev.duration == whole_seconds(now - ev.afk_start)
            &&& (t.afk_start matches Some(s) ==> ev.afk_start == s)
            &&& (t.afk_start is None ==> ev.afk_start == afk_start_at(t.last_activity as int, timeout_secs))
        },
{
    let m = after_idle_check(t, now, timeout_secs);
    if let Some(s) = m.afk_start {
        crate::clock::lemma_whole_seconds_small(now - s);
    }
}

/// Input after a period of inactivity longer than the timeout (by at
/// least a second) records exactly that AFK period.
pub proof fn lemma_long_idle_recorded(t: AFKTracker, now: i64, timeout_secs: u64)
    requires
        t.afk_start is None,
        (timeout_secs as i64) >= 0,
        shift_fits(t.last_activity as int, (timeout_secs as i64) as int),
        whole_seconds(now - afk_start_at(t.last_activity as int, timeout_secs)) >= 1,
    ensures
        after_input(t, now, timeout_secs).1 == Some(
            AfkEvent {
                afk_start: afk_start_at(t.last_activity as int, timeout_secs) as i64,
                afk_end: now,
                duration: whole_seconds(now - afk_start_at(t.last_activity as int, timeout_secs)) as i64,
            },
        ),
{
    let s = afk_start_at(t.last_activity as int, timeout_secs);
    lemma_whole_seconds_small(now - s);
    assert(now - t.last_activity == (now - s) + (timeout_secs as i64) * 1_000_000_000);
    assert(whole_seconds(now - t.last_activity) >= (timeout_secs as i64) as int) by (nonlinear_arith)
        requires
            now - t.last_activity == (now - s) + (timeout_secs as i64) * 1_000_000_000,
            (timeout_secs as i64) >= 0,
            whole_seconds(now - s) >= 1,
    {
    }
}

} // verus!
