//! The event tracker: one activity (an application and the entity in
//! it) is open at a time; switching to something else, going AFK,
//! sleeping or leaving the tracked applications ends it, and an ended
//! activity of at least one whole second is handed on for storage.

use vstd::prelude::*;
use crate::clock::{whole_seconds, seconds_between, lemma_whole_seconds_small};
use crate::monitored_app::{
    AppDetails, Category, Entity, is_ignored_bundle, ignored_reason_of, app_for_bundle_id,
    or_unknown, text_or_unknown,
};
use crate::text::str_eq;

verus! {

/// The name under which the desktop app stores its events.
pub const SOURCE: &'static str = "skopio-desktop";

/// A tracked activity. Instants are nanoseconds since the epoch.
#[derive(Debug)]
pub struct Event {
    pub timestamp: Option<i64>,
    pub duration: Option<i64>,
    pub category: Category,
    pub app_name: String,
    pub entity_name: Option<String>,
    pub entity_type: Option<Entity>,
    pub project_name: Option<String>,
    pub project_path: Option<String>,
    pub branch_name: Option<String>,
    pub language_name: Option<String>,
    pub end_timestamp: Option<i64>,
}

impl Event {
    /// An identical copy.
    pub fn duplicate(&self) -> (r: Event)
        ensures
            r == *self,
    {
        Event {
            timestamp: self.timestamp,
            duration: self.duration,
            category: self.category,
            app_name: self.app_name.clone(),
            entity_name: self.entity_name.clone(),
            entity_type: self.entity_type,
            project_name: self.project_name.clone(),
            project_path: self.project_path.clone(),
            branch_name: self.branch_name.clone(),
            language_name: self.language_name.clone(),
            end_timestamp: self.end_timestamp,
        }
    }
}

/// An ended activity in the form it is stored in.
#[derive(Debug)]
pub struct StoredEvent {
    pub timestamp: Option<i64>,
    pub duration: Option<i64>,
    pub category: Option<String>,
    pub app_name: String,
    pub entity_name: Option<String>,
    pub entity_type: Option<String>,
    pub project_name: Option<String>,
    pub project_path: Option<String>,
    pub branch_name: Option<String>,
    pub language_name: Option<String>,
    pub source_name: String,
    pub end_timestamp: Option<i64>,
}

impl StoredEvent {
    /// The stored form of a tracked activity: category and entity type as
    /// their display names, the desktop app as source.
    pub fn from_event(value: Event) -> (r: StoredEvent)
        ensures
            r.timestamp == value.timestamp,
            r.duration == value.duration,
            r.category.deep_view() == Some(crate::monitored_app::category_name_of(value.category)),
            r.app_name == value.app_name,
            r.entity_name == value.entity_name,
            r.entity_type.deep_view() == (match value.entity_type {
                Some(t) => Some(crate::monitored_app::entity_name_of(t)),
                None => None,
            }),
            r.project_name == value.project_name,
            r.project_path == value.project_path,
            r.branch_name == value.branch_name,
            r.language_name == value.language_name,
            r.source_name@ == SOURCE@,
            r.end_timestamp == value.end_timestamp,
    {
        StoredEvent {
            timestamp: value.timestamp,
            duration: value.duration,
            category: Some(String::from_str(value.category.name())),
            app_name: value.app_name,
            entity_name: value.entity_name,
            entity_type: match value.entity_type {
                Some(t) => Some(String::from_str(t.name())),
                None => None,
            },
            project_name: value.project_name,
            project_path: value.project_path,
            branch_name: value.branch_name,
            language_name: value.language_name,
            source_name: String::from_str(SOURCE),
            end_timestamp: value.end_timestamp,
        }
    }
}

/// The activity `prev` ended at `end_at`, unless it has no start or
/// lasted no whole second (negative spans count as none).
pub open spec fn finished(prev: Event, end_at: i64) -> Option<Event> {
    match prev.timestamp {
        None => None,
        Some(start) => {
            let d = whole_seconds(end_at - start);
            let d = if d < 0 { 0 } else { d };
            if d == 0 {
                None
            } else {
                Some(Event { duration: Some(d as i64), end_timestamp: Some(end_at), ..prev })
            }
        },
    }
}

/// Ends `prev` at `end_at` (see [`finished`]).
pub fn finish_event(prev: Event, end_at: i64) -> (r: Option<Event>)
    ensures
        r == finished(prev, end_at),
{
    let start_at = match prev.timestamp {
        Some(s) => s,
        None => return None,
    };
    let d = seconds_between(start_at, end_at);
    let d = if d < 0 { 0 } else { d };
    if d == 0 {
        return None;
    }
    let mut ended = prev;
    ended.duration = Some(d);
    ended.end_timestamp = Some(end_at);
    Some(ended)
}

/// The active application window.
#[derive(Debug)]
pub struct Window {
    pub app_name: String,
    pub title: String,
    pub bundle_id: String,
    /// The executable path of the application.
    pub path: String,
    pub pid: i32,
}

/// The window of the frontmost application from what the system told:
/// missing names, identifiers, paths and titles read `unknown`.
pub fn window_from(
    app_name: Option<String>,
    bundle_id: Option<String>,
    path: Option<String>,
    pid: i32,
    title: Option<String>,
) -> (w: Window)
    ensures
        w.app_name@ == or_unknown(app_name),
        w.bundle_id@ == or_unknown(bundle_id),
        w.path@ == or_unknown(path),
        w.pid == pid,
        w.title@ == or_unknown(title),
{
    Window {
        app_name: text_or_unknown(&app_name),
        title: text_or_unknown(&title),
        bundle_id: text_or_unknown(&bundle_id),
        path: text_or_unknown(&path),
        pid,
    }
}

/// Whether two window readings are the same (all their fields).
pub open spec fn same_window(a: Option<Window>, b: Option<Window>) -> bool {
    match (a, b) {
        (None, None) => true,
        (Some(x), Some(y)) => x.app_name@ == y.app_name@ && x.title@ == y.title@
            && x.bundle_id@ == y.bundle_id@ && x.path@ == y.path@ && x.pid == y.pid,
        _ => false,
    }
}

/// Whether the window reading `current` must be published: it differs
/// from the last one published.
pub fn window_changed(last: &Option<Window>, current: &Option<Window>) -> (r: bool)
    ensures
        r == !same_window(*last, *current),
{
    match (last, current) {
        (None, None) => false,
        (Some(x), Some(y)) => !(str_eq(x.app_name.as_str(), y.app_name.as_str()) && str_eq(
            x.title.as_str(),
            y.title.as_str(),
        ) && str_eq(x.bundle_id.as_str(), y.bundle_id.as_str()) && str_eq(
            x.path.as_str(),
            y.path.as_str(),
        ) && x.pid == y.pid),
        _ => true,
    }
}

/// The event tracker's state.
pub struct EventTracker {
    /// The activity in progress.
    pub active_event: Option<Event>,
    /// Bundle identifiers of the applications the user chose to track,
    /// each once.
    pub allowed_ids: Vec<String>,
    /// Application name and window title last tracked.
    pub last_state: Option<(String, String)>,
}

/// Whether `ids` holds the text `b`.
pub open spec fn holds_id(ids: Seq<String>, b: Seq<char>) -> bool {
    exists|i: int| 0 <= i < ids.len() && (#[trigger] ids[i])@ == b
}

/// No text occurs twice in `ids`.
pub open spec fn distinct_ids(ids: Seq<String>) -> bool {
    forall|i: int, j: int| 0 <= i < j < ids.len() ==> (#[trigger] ids[i])@ != (#[trigger] ids[j])@
}

/// Whether the tracker follows activity in the application `bundle`.
pub open spec fn admits(t: EventTracker, bundle: Seq<char>) -> bool {
    ignored_reason_of(app_for_bundle_id(bundle)) is None && holds_id(t.allowed_ids@, bundle)
}

/// The activity in progress ended at `at`: none is active afterwards.
pub open spec fn after_end(t: EventTracker, at: i64) -> (EventTracker, Option<Event>) {
    (
        EventTracker { active_event: None, ..t },
        match t.active_event {
            Some(p) => finished(p, at),
            None => None,
        },
    )
}

/// The activity described by `details` in `app_name`, started at `now`.
pub open spec fn new_event(app_name: String, details: AppDetails, branch_name: Option<String>, now: i64) -> Event {
    Event {
        timestamp: Some(now),
        duration: None,
        category: details.category,
        app_name: app_name,
        entity_name: Some(details.entity),
        entity_type: Some(details.entity_type),
        project_name: details.project_name,
        project_path: details.project_path,
        branch_name: branch_name,
        language_name: details.language,
        end_timestamp: None,
    }
}

/// Whether the activity in progress is in `app_name` on `entity`.
pub open spec fn continues(t: EventTracker, app_name: Seq<char>, entity: Seq<char>) -> bool {
    t.active_event matches Some(p) && p.app_name@ == app_name && p.entity_name.deep_view() == Some(
        entity,
    )
}

/// The tracker after activity in application `bundle` at `now`.
pub open spec fn after_track(
    t: EventTracker,
    app_name: String,
    bundle: Seq<char>,
    details: AppDetails,
    branch_name: Option<String>,
    now: i64,
) -> (EventTracker, Option<Event>) {
    if !admits(t, bundle) {
        after_end(t, now)
    } else if continues(t, app_name@, details.entity@) {
        (t, None)
    } else {
        (
            EventTracker { active_event: Some(new_event(app_name, details, branch_name, now)), ..t },
            match t.active_event {
                Some(p) => finished(p, now),
                None => None,
            },
        )
    }
}

fn holds(ids: &Vec<String>, b: &str) -> (r: bool)
    ensures
        r == holds_id(ids@, b@),
{
    let mut i: usize = 0;
    while i < ids.len()
        invariant
            i <= ids@.len(),
            forall|j: int| 0 <= j < i ==> (#[trigger] ids@[j])@ != b@,
        decreases ids@.len() - i,
    {
        if str_eq(ids[i].as_str(), b) {
            return true;
        }
        i += 1;
    }
    false
}

impl EventTracker {
    /// A tracker of the applications with the given bundle identifiers.
    pub fn new(tracked_ids: Vec<String>) -> (t: EventTracker)
        ensures
            t.active_event is None,
            t.last_state is None,
            distinct_ids(t.allowed_ids@),
            forall|b: Seq<char>| holds_id(t.allowed_ids@, b) <==> holds_id(tracked_ids@, b),
    {
        EventTracker { active_event: None, allowed_ids: distinct(tracked_ids), last_state: None }
    }

    /// Whether activity in the application `bundle_id` is tracked.
    pub fn admits(&self, bundle_id: &str) -> (r: bool)
        ensures
            r == admits(*self, bundle_id@),
    {
        !is_ignored_bundle(bundle_id) && holds(&self.allowed_ids, bundle_id)
    }

    /// Ends the activity in progress at `end_at`, returning it when it
    /// lasted at least a whole second.
    pub fn end_active_event_at(&mut self, end_at: i64) -> (r: Option<Event>)
        ensures
            (*final(self), r) == after_end(*old(self), end_at),
    {
        let prev = self.active_event.take();
        match prev {
            Some(p) => finish_event(p, end_at),
            None => None,
        }
    }

    /// Records activity at `now` in application `app_name` (bundle
    /// `app_bundle_id`) on the entity `details` describes. Untracked or
    /// ignored applications end the activity in progress; the activity in
    /// progress continues when application and entity are the same;
    /// otherwise it ends and the new one starts. Returns the ended activity
    /// to store, if any.
    pub fn track_event(
        &mut self,
        app_name: String,
        app_bundle_id: &str,
        details: AppDetails,
        branch_name: Option<String>,
        now: i64,
    ) -> (r: Option<Event>)
        ensures
            (*final(self), r) == after_track(
                *old(self),
                app_name,
                app_bundle_id@,
                details,
                branch_name,
                now,
            ),
    {
        if !self.admits(app_bundle_id) {
            return self.end_active_event_at(now);
        }
        if let Some(prev) = &self.active_event {
            let same_entity = match &prev.entity_name {
                Some(e) => str_eq(e.as_str(), details.entity.as_str()),
                None => false,
            };
            if str_eq(prev.app_name.as_str(), app_name.as_str()) && same_entity {
                return None;
            }
        }
        let new_ev = Event {
            timestamp: Some(now),
            duration: None,
            category: details.category,
            app_name: app_name,
            entity_name: Some(details.entity),
            entity_type: Some(details.entity_type),
            project_name: details.project_name,
            project_path: details.project_path,
            branch_name: branch_name,
            language_name: details.language,
            end_timestamp: None,
        };
        let prev = self.active_event.take();
        self.active_event = Some(new_ev);
        match prev {
            Some(p) => finish_event(p, now),
            None => None,
        }
    }
}

/// `ids` without repetitions, keeping the first of each.
fn distinct(ids: Vec<String>) -> (r: Vec<String>)
    ensures
        distinct_ids(r@),
        forall|b: Seq<char>| holds_id(r@, b) <==> holds_id(ids@, b),
{
    let mut out: Vec<String> = Vec::new();
    let mut i: usize = 0;
    while i < ids.len()
        invariant
            i <= ids@.len(),
            distinct_ids(out@),
            forall|b: Seq<char>| holds_id(out@, b) <==> holds_id(ids@.take(i as int), b),
        decreases ids@.len() - i,
    {
        let id = ids[i].clone();
        let ghost prev = out@;
        if !holds(&out, id.as_str()) {
            out.push(id);
            assert forall|b: Seq<char>| holds_id(out@, b) <==> holds_id(ids@.take(i + 1), b) by {
                if holds_id(ids@.take(i + 1), b) {
                    let j = choose|j: int| 0 <= j < i + 1 && (#[trigger] ids@.take(i + 1)[j])@ == b;
                    if j < i {
                        assert(ids@.take(i as int)[j] == ids@.take(i + 1)[j]);
                        assert(holds_id(prev, b));
                        let k = choose|k: int| 0 <= k < prev.len() && (#[trigger] prev[k])@ == b;
                        assert(out@[k] == prev[k]);
                    } else {
                        assert(out@[prev.len() as int] == id);
                    }
                }
                if holds_id(out@, b) {
                    let k = choose|k: int| 0 <= k < out@.len() && (#[trigger] out@[k])@ == b;
                    if k < prev.len() {
                        assert(out@[k] == prev[k]);
                        assert(holds_id(prev, b));
                        let j = choose|j: int| 0 <= j < i && (#[trigger] ids@.take(i as int)[j])@ == b;
                        assert(ids@.take(i + 1)[j] == ids@.take(i as int)[j]);
                    } else {
                        assert(ids@.take(i + 1)[i as int] == ids@[i as int]);
                    }
                }
            }
        } else {
            assert forall|b: Seq<char>| holds_id(out@, b) <==> holds_id(ids@.take(i + 1), b) by {
                if holds_id(ids@.take(i + 1), b) {
                    let j = choose|j: int| 0 <= j < i + 1 && (#[trigger] ids@.take(i + 1)[j])@ == b;
                    if j < i {
                        assert(ids@.take(i as int)[j] == ids@.take(i + 1)[j]);
                    } else {
                        assert(ids@.take(i + 1)[j] == ids@[i as int]);
                    }
                }
                if holds_id(out@, b) {
                    let j = choose|j: int| 0 <= j < i && (#[trigger] ids@.take(i as int)[j])@ == b;
                    assert(ids@.take(i + 1)[j] == ids@.take(i as int)[j]);
                }
            }
        }
        i += 1;
    }
    assert(ids@.take(ids@.len() as int) =~= ids@);
    out
}

/// What reaches the event tracker's loop.
pub enum TrackerSignal {
    /// The user went AFK at `at`.
    AfkStarted { at: i64 },
    /// The user is back at the keyboard, as of `now`.
    UserActive { now: i64 },
    /// The machine goes to sleep at `at`.
    WillSleep { at: i64 },
    /// The machine woke up, as of `now`; `user_active` tells whether the
    /// user is not AFK.
    DidWake { user_active: bool, now: i64 },
    /// Power events were missed; `now` is the current instant.
    PowerLagged { now: i64 },
    /// No window is active any more, as of `now`.
    WindowClosed { now: i64 },
    /// A window became active, as of `now`.
    WindowChanged { window: Window, now: i64 },
}

/// What the loop must do next.
pub enum TrackerAction {
    /// Hand this ended activity to the tracking service.
    Store(Event),
    /// Resolve this window's details (a tracked application's) and call
    /// `track_event` for it.
    Track(Window),
    /// Nothing.
    Idle,
}

/// Whether `w` shows the application and title last tracked.
pub open spec fn window_seen(t: EventTracker, w: Window) -> bool {
    t.last_state matches Some((a, f)) && a@ == w.app_name@ && f@ == w.title@
}

/// The loop after window `w` became current at `now`: a window
/// differing from the last one (by application or title) is remembered;
/// if its application is tracked its details are needed, otherwise the
/// activity in progress ends at `now` with no details read.
pub open spec fn after_window(t: EventTracker, w: Window, now: i64) -> (EventTracker, TrackerAction) {
    if window_seen(t, w) {
        (t, TrackerAction::Idle)
    } else {
        let t1 = EventTracker { last_state: Some((w.app_name, w.title)), ..t };
        if admits(t, w.bundle_id@) {
            (t1, TrackerAction::Track(w))
        } else {
            let (t2, ev) = after_end(t1, now);
            (
                t2,
                match ev {
                    Some(e) => TrackerAction::Store(e),
                    None => TrackerAction::Idle,
                },
            )
        }
    }
}

/// The loop after the activity in progress ends at `at`; the next window
/// is tracked whatever it is.
pub open spec fn after_stop_at(t: EventTracker, at: i64) -> (EventTracker, TrackerAction) {
    let (t2, ev) = after_end(t, at);
    (
        EventTracker { last_state: None, ..t2 },
        match ev {
            Some(e) => TrackerAction::Store(e),
            None => TrackerAction::Idle,
        },
    )
}

/// The loop after tracking the current window, if there is one.
pub open spec fn after_current(t: EventTracker, current: Option<Window>, now: i64) -> (EventTracker, TrackerAction) {
    match current {
        Some(w) => after_window(t, w, now),
        None => (t, TrackerAction::Idle),
    }
}

/// The loop after `signal`, with `current` the active window.
pub open spec fn after_signal(t: EventTracker, signal: TrackerSignal, current: Option<Window>) -> (EventTracker, TrackerAction) {
    match signal {
        TrackerSignal::AfkStarted { at } => after_stop_at(t, at),
        TrackerSignal::WillSleep { at } => after_stop_at(t, at),
        TrackerSignal::PowerLagged { now } => after_stop_at(t, now),
        TrackerSignal::WindowClosed { now } => after_stop_at(t, now),
        TrackerSignal::UserActive { now } => after_current(t, current, now),
        TrackerSignal::DidWake { user_active, now } => if user_active {
            after_current(t, current, now)
        } else {
            (t, TrackerAction::Idle)
        },
        TrackerSignal::WindowChanged { window, now } => after_window(t, window, now),
    }
}

impl EventTracker {
    /// Decides about window `w` at `now` (see [`after_window`]).
    pub fn track_window(&mut self, w: Window, now: i64) -> (r: TrackerAction)
        ensures
            (*final(self), r) == after_window(*old(self), w, now),
    {
        let seen = match &self.last_state {
            Some((a, f)) => str_eq(a.as_str(), w.app_name.as_str()) && str_eq(
                f.as_str(),
                w.title.as_str(),
            ),
            None => false,
        };
        if seen {
            TrackerAction::Idle
        } else {
            self.last_state = Some((w.app_name.clone(), w.title.clone()));
            if self.admits(w.bundle_id.as_str()) {
                TrackerAction::Track(w)
            } else {
                match self.end_active_event_at(now) {
                    Some(e) => TrackerAction::Store(e),
                    None => TrackerAction::Idle,
                }
            }
        }
    }

    fn stop_at(&mut self, at: i64) -> (r: TrackerAction)
        ensures
            (*final(self), r) == after_stop_at(*old(self), at),
    {
        let ev = self.end_active_event_at(at);
        self.last_state = None;
        match ev {
            Some(e) => TrackerAction::Store(e),
            None => TrackerAction::Idle,
        }
    }

    fn track_current_window(&mut self, current: Option<Window>, now: i64) -> (r: TrackerAction)
        ensures
            (*final(self), r) == after_current(*old(self), current, now),
    {
        match current {
            Some(w) => self.track_window(w, now),
            None => TrackerAction::Idle,
        }
    }

    /// One step of the tracking loop: `signal` arrived while `current` is
    /// the active window.
    pub fn on_signal(&mut self, signal: TrackerSignal, current: Option<Window>) -> (r: TrackerAction)
        ensures
            (*final(self), r) == after_signal(*old(self), signal, current),
    {
        match signal {
            TrackerSignal::AfkStarted { at } => self.stop_at(at),
            TrackerSignal::WillSleep { at } => self.stop_at(at),
            TrackerSignal::PowerLagged { now } => self.stop_at(now),
            TrackerSignal::WindowClosed { now } => self.stop_at(now),
            TrackerSignal::UserActive { now } => self.track_current_window(current, now),
            TrackerSignal::DidWake { user_active, now } => if user_active {
                self.track_current_window(current, now)
            } else {
                TrackerAction::Idle
            },
            TrackerSignal::WindowChanged { window, now } => self.track_window(window, now),
        }
    }

    /// The user changed the applications to track at `now`: the set is
    /// replaced, the window memory cleared and the current window tracked
    /// anew.
    pub fn set_tracked_apps(&mut self, ids: Vec<String>, current: Option<Window>, now: i64) -> (r: TrackerAction)
        ensures
            distinct_ids(final(self).allowed_ids@),
            forall|b: Seq<char>| holds_id(final(self).allowed_ids@, b) <==> holds_id(ids@, b),
            (*final(self), r) == after_current(
                EventTracker { allowed_ids: final(self).allowed_ids, last_state: None, ..*old(self) },
                current,
                now,
            ),
    {
        self.allowed_ids = distinct(ids);
        self.last_state = None;
        self.track_current_window(current, now)
    }

    /// Stops tracking at `now`, ending the activity in progress.
    pub fn stop_tracking(&mut self, now: i64) -> (r: Option<Event>)
        ensures
            (*final(self), r) == after_end(*old(self), now),
    {
        self.end_active_event_at(now)
    }
}

/// An activity handed on for storage lasted at least one whole second,
/// ends at the instant it was ended at, and keeps its start.
pub proof fn lemma_finished_event(prev: Event, end_at: i64)
    ensures
        finished(prev, end_at) matches Some(e) ==> {
            &&& e.timestamp == prev.timestamp
            &&& e.end_timestamp == Some(end_at)
            &&& e.duration matches Some(d) && d >= 1 && d == whole_seconds(end_at - prev.timestamp->0)
            &&& e.app_name == prev.app_name
            &&& e.entity_name == prev.entity_name
        },
{
    if let Some(s) = prev.timestamp {
        lemma_whole_seconds_small(end_at - s);
    }
}

/// Ending twice hands on nothing the second time, and nothing is active.
pub proof fn lemma_end_twice(t: EventTracker, a: i64, b: i64)
    ensures
        after_end(after_end(t, a).0, b).1 is None,
        after_end(t, a).0.active_event is None,
{
}

/// Reporting the same activity again changes nothing and stores nothing.
pub proof fn lemma_track_repeat(
    t: EventTracker,
    app_name: String,
    bundle: Seq<char>,
    details: AppDetails,
    branch_name: Option<String>,
    now: i64,
    later: i64,
)
    ensures
        ({
            let (t1, _) = after_track(t, app_name, bundle, details, branch_name, now);
            admits(t, bundle) ==> after_track(t1, app_name, bundle, details, branch_name, later) == (
            t1, None::<Event>)
        }),
{
}

/// Switching activity hands on exactly the activity that was in progress,
/// ended at the switch.
pub proof fn lemma_switch_stores_previous(
    t: EventTracker,
    app_name: String,
    bundle: Seq<char>,
    details: AppDetails,
    branch_name: Option<String>,
    now: i64,
)
    requires
        admits(t, bundle),
        !continues(t, app_name@, details.entity@),
    ensures
        after_track(t, app_name, bundle, details, branch_name, now).1 == (match t.active_event {
            Some(p) => finished(p, now),
            None => None,
        }),
        after_track(t, app_name, bundle, details, branch_name, now).0.active_event == Some(
            new_event(app_name, details, branch_name, now),
        ),
{
}

/// A window shown again right after it was seen is not handled twice;
/// a new window of an application that is not tracked ends the activity
/// in progress and asks for no details.
pub proof fn lemma_window_once(t: EventTracker, w: Window, now: i64, later: i64)
    ensures
        !window_seen(t, w) ==> window_seen(after_window(t, w, now).0, w),
        !window_seen(t, w) ==> after_window(after_window(t, w, now).0, w, later) == (
            after_window(t, w, now).0,
            TrackerAction::Idle,
        ),
        window_seen(t, w) ==> after_window(t, w, now) == (t, TrackerAction::Idle),
        !window_seen(t, w) && !admits(t, w.bundle_id@) ==> {
            &&& after_window(t, w, now).0.active_event is None
            &&& after_window(t, w, now).1 !is Track
        },
{
}

/// Going AFK, to sleep, or away from every window ends the activity in
/// progress at that instant and makes the next window count as new.
pub proof fn lemma_stop_signals(t: EventTracker, at: i64)
    ensures
        after_stop_at(t, at).0.active_event is None,
        after_stop_at(t, at).0.last_state is None,
        after_stop_at(t, at).0.allowed_ids == t.allowed_ids,
{
}

/// The readings the window poller publishes, given the last one it
/// published: each reading that differs from the last published one.
pub open spec fn published(last: Option<Window>, readings: Seq<Option<Window>>) -> Seq<Option<Window>>
    decreases readings.len(),
{
    if readings.len() == 0 {
        Seq::empty()
    } else {
        let r = readings[0];
        if same_window(last, r) {
            published(last, readings.drop_first())
        } else {
            seq![r] + published(r, readings.drop_first())
        }
    }
}

/// Subscribers never see the same window twice in a row: the first
/// reading published differs from the last one published before, and so
/// does each from the one before it.
pub proof fn lemma_published_changes(last: Option<Window>, readings: Seq<Option<Window>>)
    ensures
        published(last, readings).len() > 0 ==> !same_window(last, published(last, readings)[0]),
        forall|i: int| 0 <= i < published(last, readings).len() - 1
            ==> !same_window(#[trigger] published(last, readings)[i], published(last, readings)[i + 1]),
    decreases readings.len(),
{
    if readings.len() > 0 {
        let r = readings[0];
        let rest = readings.drop_first();
        if same_window(last, r) {
            lemma_published_changes(last, rest);
        } else {
            lemma_published_changes(r, rest);
            let p = published(r, rest);
            assert forall|i: int| 0 <= i < published(last, readings).len() - 1 implies !same_window(
                #[trigger] published(last, readings)[i],
                published(last, readings)[i + 1],
            ) by {
                assert(published(last, readings) == seq![r] + p);
                if i == 0 {
                    assert(published(last, readings)[1] == p[0]);
                } else {
                    assert(published(last, readings)[i] == p[i - 1]);
                    assert(published(last, readings)[i + 1] == p[i]);
                }
            }
        }
    }
}

/// Whether an action hands on a stored activity that lasted at least one
/// whole second and ends at a known instant.
pub open spec fn well_ended(a: TrackerAction) -> bool {
    a matches TrackerAction::Store(e) ==> (e.duration matches Some(d) && d >= 1 && e.end_timestamp is Some)
}

/// The tracker after the loop's steps in order (each a signal and the
/// active window at that moment), and the actions taken.
pub open spec fn loop_run(t: EventTracker, steps: Seq<(TrackerSignal, Option<Window>)>) -> (EventTracker, Seq<TrackerAction>)
    decreases steps.len(),
{
    if steps.len() == 0 {
        (t, Seq::empty())
    } else {
        let (t1, a) = after_signal(t, steps[0].0, steps[0].1);
        let (t2, rest) = loop_run(t1, steps.drop_first());
        (t2, seq![a] + rest)
    }
}

proof fn lemma_signal_well_ended(t: EventTracker, signal: TrackerSignal, current: Option<Window>)
    ensures
        well_ended(after_signal(t, signal, current).1),
{
    if let Some(p) = t.active_event {
        match signal {
            TrackerSignal::AfkStarted { at } => lemma_finished_event(p, at),
            TrackerSignal::WillSleep { at } => lemma_finished_event(p, at),
            TrackerSignal::PowerLagged { now } => lemma_finished_event(p, now),
            TrackerSignal::WindowClosed { now } => lemma_finished_event(p, now),
            TrackerSignal::UserActive { now } => lemma_finished_event(p, now),
            TrackerSignal::DidWake { user_active, now } => lemma_finished_event(p, now),
            TrackerSignal::WindowChanged { window, now } => lemma_finished_event(p, now),
        }
    }
}

/// Over any run of the tracking loop, every activity it hands on for
/// storage lasted at least one whole second and has its end instant; and
/// after the user goes AFK, the machine sleeps, power events are missed
/// or no window is active, no activity is in progress.
pub proof fn lemma_loop_stores_ended_activities(t: EventTracker, steps: Seq<(TrackerSignal, Option<Window>)>)
    ensures
        loop_run(t, steps).1.len() == steps.len(),
        forall|i: int| 0 <= i < steps.len() ==> well_ended(#[trigger] loop_run(t, steps).1[i]),
        steps.len() > 0 && (steps.last().0 is AfkStarted || steps.last().0 is WillSleep
            || steps.last().0 is PowerLagged || steps.last().0 is WindowClosed)
            ==> loop_run(t, steps).0.active_event is None,
    decreases steps.len(),
{
    if steps.len() > 0 {
        let (t1, a) = after_signal(t, steps[0].0, steps[0].1);
        let rest = steps.drop_first();
        lemma_signal_well_ended(t, steps[0].0, steps[0].1);
        lemma_loop_stores_ended_activities(t1, rest);
        assert forall|i: int| 0 <= i < steps.len() implies well_ended(#[trigger] loop_run(t, steps).1[i]) by {
            if i > 0 {
                assert(loop_run(t, steps).1[i] == loop_run(t1, rest).1[i - 1]);
            }
        }
        if rest.len() > 0 {
            assert(rest.last() == steps.last());
        }
    }
}

} // verus!
