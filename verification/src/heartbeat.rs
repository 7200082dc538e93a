//! Heartbeat throttling: a heartbeat for an application and entity is
//! logged at most once per interval, and the record of recent heartbeats
//! forgets entries older than five minutes.

use vstd::prelude::*;
use dashmap::DashMap;
use crate::text::{str_eq, contains_str, occurs_in};
use crate::monitored_app::{is_ignored_bundle, ignored_reason_of, app_for_bundle_id, AppDetails, Entity};

verus! {

#[verifier::external_type_specification]
#[verifier::external_body]
#[verifier::reject_recursive_types(K)]
#[verifier::reject_recursive_types(V)]
#[verifier::reject_recursive_types(S)]
pub struct ExDashMap<K, V, S>(DashMap<K, V, S>);

/// Last heartbeat instants by application name and entity.
pub type HeartbeatMap = DashMap<(String, String), i64>;

/// The last heartbeat instant (monotonic nanoseconds) of each pair of
/// application and entity held by a heartbeat map.
pub uninterp spec fn heartbeat_times(m: HeartbeatMap) -> Map<(Seq<char>, Seq<char>), i64>;

/// No heartbeat recorded.
pub open spec fn no_heartbeats() -> Map<(Seq<char>, Seq<char>), i64> {
    Map::empty()
}

/// Calls `DashMap::new`. Claims the new map holds nothing.
#[verifier::external_body]
fn new_heartbeat_map() -> (r: HeartbeatMap)
    ensures
        heartbeat_times(r) == no_heartbeats(),
{
    DashMap::new()
}

/// Calls `DashMap::get` for the pair `(app, entity)` and reads the value.
/// Claims the result is the instant the map holds for the pair, if any.
#[verifier::external_body]
fn last_time(m: &HeartbeatMap, app: &str, entity: &str) -> (r: Option<i64>)
    ensures
        heartbeat_times(*m).contains_key((app@, entity@)) ==> r == Some(heartbeat_times(*m)[(app@, entity@)]),
        !heartbeat_times(*m).contains_key((app@, entity@)) ==> r is None,
{
    m.get(&(app.to_string(), entity.to_string())).map(|e| *e.value())
}

/// Calls `DashMap::insert` for the pair `(app, entity)`. Claims the map
/// afterwards holds `t` for the pair and is otherwise unchanged.
#[verifier::external_body]
fn record_time(m: &mut HeartbeatMap, app: &str, entity: &str, t: i64)
    ensures
        heartbeat_times(*final(m)) == heartbeat_times(*old(m)).insert((app@, entity@), t),
{
    m.insert((app.to_string(), entity.to_string()), t);
}

/// Whether a heartbeat at `t` is newer than `threshold`.
pub open spec fn newer_than(t: i64, threshold: i64) -> bool {
    t > threshold
}

fn is_newer(t: i64, threshold: i64) -> (r: bool)
    ensures
        r == newer_than(t, threshold),
{
    t > threshold
}

/// Calls `DashMap::retain` with a predicate keeping the instants newer
/// than `threshold`. Claims the map afterwards holds exactly the entries
/// it held with such instants.
#[verifier::external_body]
fn keep_newer(m: &mut HeartbeatMap, threshold: i64)
    ensures
        heartbeat_times(*final(m)) == heartbeat_times(*old(m)).restrict(
            heartbeat_times(*old(m)).dom().filter(|k: (Seq<char>, Seq<char>)| newer_than(heartbeat_times(*old(m))[k], threshold)),
        ),
{
    m.retain(|_, t| is_newer(*t, threshold));
}

/// How long recent heartbeats are remembered: five minutes.
pub const RETENTION_NANOS: i64 = 300_000_000_000;

/// A logged heartbeat, as stored. `timestamp` is in nanoseconds since the
/// epoch; the cursor position that goes with it is kept by the caller.
#[derive(Debug)]
pub struct Heartbeat {
    pub timestamp: Option<i64>,
    pub project_name: Option<String>,
    pub project_path: Option<String>,
    pub entity_name: String,
    pub entity_type: Entity,
    pub branch_name: Option<String>,
    pub language_name: Option<String>,
    pub app_name: String,
    pub is_write: bool,
    pub lines: Option<i64>,
}

impl Heartbeat {
    /// An identical copy.
    pub fn duplicate(&self) -> (r: Heartbeat)
        ensures
            r == *self,
    {
        Heartbeat {
            timestamp: self.timestamp,
            project_name: self.project_name.clone(),
            project_path: self.project_path.clone(),
            entity_name: self.entity_name.clone(),
            entity_type: self.entity_type,
            branch_name: self.branch_name.clone(),
            language_name: self.language_name.clone(),
            app_name: self.app_name.clone(),
            is_write: self.is_write,
            lines: self.lines,
        }
    }
}

/// The heartbeat tracker's state.
pub struct HeartbeatTracker {
    /// The heartbeat logged last, if any.
    pub last_heartbeat: Option<Heartbeat>,
    /// Last heartbeat instant of each application and entity.
    pub last_heartbeats: HeartbeatMap,
    /// Minimum seconds between two heartbeats of one pair.
    pub heartbeat_interval: u64,
}

/// The heartbeat logged at `timestamp` for activity in `app_name` on the
/// window entity `entity`, whose details resolved to `details`: the
/// details' project, entity and language; the git branch of the project
/// (`branch`, as read by the caller) for Xcode with a project path only;
/// written when Xcode marks the entity edited; no line count.
pub open spec fn heartbeat_record(app_name: String, entity: Seq<char>, details: AppDetails, branch: Option<String>, timestamp: i64) -> Heartbeat {
    let xcode = app_name@ == "Xcode"@;
    Heartbeat {
        timestamp: Some(timestamp),
        project_name: details.project_name,
        project_path: details.project_path,
        entity_name: details.entity,
        entity_type: details.entity_type,
        branch_name: if xcode && details.project_path is Some { branch } else { None },
        language_name: details.language,
        app_name,
        is_write: xcode && occurs_in("Edited"@, entity),
        lines: None,
    }
}

/// Nanoseconds from `earlier` to `later`, none if `later` is earlier.
pub open spec fn since(earlier: i64, later: i64) -> int {
    if later >= earlier { later - earlier } else { 0 }
}

/// Whether a heartbeat for `(app, entity)` at `now` is logged: when none
/// was logged for the pair, or the interval has passed since the last.
pub open spec fn heartbeat_due(times: Map<(Seq<char>, Seq<char>), i64>, app: Seq<char>, entity: Seq<char>, now: i64, interval_secs: u64) -> bool {
    !times.contains_key((app, entity)) || since(times[(app, entity)], now) >= interval_secs * 1_000_000_000
}

impl HeartbeatTracker {
    /// A tracker logging each pair at most once per `interval_secs`.
    pub fn new(interval_secs: u64) -> (t: HeartbeatTracker)
        ensures
            heartbeat_times(t.last_heartbeats) == no_heartbeats(),
            t.heartbeat_interval == interval_secs,
            t.last_heartbeat is None,
    {
        HeartbeatTracker { last_heartbeat: None, last_heartbeats: new_heartbeat_map(), heartbeat_interval: interval_secs }
    }

    /// Decides whether to log a heartbeat for `(app, entity)` at `now`
    /// (see [`heartbeat_due`]) and, if so, remembers `now` for the pair.
    pub fn should_log_heartbeat(&mut self, app: &str, entity: &str, now: i64) -> (r: bool)
        ensures
            r == heartbeat_due(heartbeat_times(old(self).last_heartbeats), app@, entity@, now, old(self).heartbeat_interval),
            r ==> heartbeat_times(final(self).last_heartbeats) == heartbeat_times(old(self).last_heartbeats).insert((app@, entity@), now),
            !r ==> heartbeat_times(final(self).last_heartbeats) == heartbeat_times(old(self).last_heartbeats),
            final(self).heartbeat_interval == old(self).heartbeat_interval,
            final(self).last_heartbeat == old(self).last_heartbeat,
    {
        let should = match last_time(&self.last_heartbeats, app, entity) {
            Some(t) => {
                let d: i128 = if now >= t { now as i128 - t as i128 } else { 0 };
                d >= self.heartbeat_interval as i128 * 1_000_000_000
            },
            None => true,
        };
        if should {
            record_time(&mut self.last_heartbeats, app, entity, now);
        }
        should
    }

    /// Forgets the heartbeats older than five minutes before `now`.
    pub fn cleanup_old_entries(&mut self, now: i64)
        requires
            now >= i64::MIN + RETENTION_NANOS,
        ensures
            heartbeat_times(final(self).last_heartbeats) == heartbeat_times(old(self).last_heartbeats).restrict(
                heartbeat_times(old(self).last_heartbeats).dom().filter(
                    |k: (Seq<char>, Seq<char>)| heartbeat_times(old(self).last_heartbeats)[k] > now - 5 * 60
                        * 1_000_000_000,
                ),
            ),
            final(self).heartbeat_interval == old(self).heartbeat_interval,
            final(self).last_heartbeat == old(self).last_heartbeat,
    {
        keep_newer(&mut self.last_heartbeats, now - RETENTION_NANOS);
    }
}

/// What to do with activity seen for a heartbeat.
#[derive(Debug, Clone, Copy, PartialEq, Eq, Structural)]
pub enum HeartbeatStep {
    /// Nothing: the application is ignored, or the pair was logged too
    /// recently.
    Skip,
    /// Log a heartbeat; `with_branch` asks for the project's git branch
    /// (Xcode only), `is_write` tells whether the entity was edited.
    Log { with_branch: bool, is_write: bool },
}

impl HeartbeatTracker {
    /// Decides about activity at `now` in application `app_name` (bundle
    /// `bundle_id`) on `entity`: ignored applications are skipped without
    /// being remembered; otherwise the throttle decides.
    pub fn track_heartbeat_step(&mut self, app_name: &str, bundle_id: &str, entity: &str, now: i64) -> (r: HeartbeatStep)
        ensures
            ignored_reason_of(app_for_bundle_id(bundle_id@)) is Some ==> r == HeartbeatStep::Skip
                && heartbeat_times(final(self).last_heartbeats) == heartbeat_times(old(self).last_heartbeats),
            ignored_reason_of(app_for_bundle_id(bundle_id@)) is None ==> {
                let due = heartbeat_due(heartbeat_times(old(self).last_heartbeats), app_name@, entity@, now, old(self).heartbeat_interval);
                &&& due ==> r == (HeartbeatStep::Log {
                    with_branch: app_name@ == "Xcode"@,
                    is_write: app_name@ == "Xcode"@ && occurs_in("Edited"@, entity@),
                })
                &&& due ==> heartbeat_times(final(self).last_heartbeats) == heartbeat_times(old(self).last_heartbeats).insert((app_name@, entity@), now)
                &&& !due ==> r == HeartbeatStep::Skip
                    && heartbeat_times(final(self).last_heartbeats) == heartbeat_times(old(self).last_heartbeats)
            },
            final(self).heartbeat_interval == old(self).heartbeat_interval,
            final(self).last_heartbeat == old(self).last_heartbeat,
    {
        if is_ignored_bundle(bundle_id) {
            return HeartbeatStep::Skip;
        }
        if !self.should_log_heartbeat(app_name, entity, now) {
            return HeartbeatStep::Skip;
        }
        let (is_xcode, is_write) = heartbeat_flags(app_name, entity);
        HeartbeatStep::Log { with_branch: is_xcode, is_write }
    }
}

impl HeartbeatTracker {
    /// Handles activity at `now` (monotonic nanoseconds; `timestamp` is
    /// the wall-clock instant) in application `app_name` (bundle
    /// `bundle_id`) on the window entity `entity`, resolved to `details`.
    /// When a heartbeat is due (see [`HeartbeatTracker::track_heartbeat_step`])
    /// it is built (see [`heartbeat_record`]), remembered as the last one
    /// and returned for storage; otherwise nothing is.
    pub fn track_heartbeat(
        &mut self,
        app_name: String,
        bundle_id: &str,
        entity: &str,
        details: AppDetails,
        branch: Option<String>,
        now: i64,
        timestamp: i64,
    ) -> (r: Option<Heartbeat>)
        ensures
            ({
                let logged = ignored_reason_of(app_for_bundle_id(bundle_id@)) is None && heartbeat_due(
                    heartbeat_times(old(self).last_heartbeats),
                    app_name@,
                    entity@,
                    now,
                    old(self).heartbeat_interval,
                );
                &&& logged ==> r == Some(heartbeat_record(app_name, entity@, details, branch, timestamp))
                    && final(self).last_heartbeat == r
                    && heartbeat_times(final(self).last_heartbeats) == heartbeat_times(old(self).last_heartbeats).insert(
                    (app_name@, entity@),
                    now,
                )
                &&& !logged ==> r is None && final(self).last_heartbeat == old(self).last_heartbeat
                    && heartbeat_times(final(self).last_heartbeats) == heartbeat_times(old(self).last_heartbeats)
            }),
            final(self).heartbeat_interval == old(self).heartbeat_interval,
    {
        match self.track_heartbeat_step(app_name.as_str(), bundle_id, entity, now) {
            HeartbeatStep::Skip => None,
            HeartbeatStep::Log { with_branch, is_write } => {
                let branch_name = if with_branch && details.project_path.is_some() {
                    branch
                } else {
                    None
                };
                let h = Heartbeat {
                    timestamp: Some(timestamp),
                    project_name: details.project_name,
                    project_path: details.project_path,
                    entity_name: details.entity,
                    entity_type: details.entity_type,
                    branch_name,
                    language_name: details.language,
                    app_name,
                    is_write,
                    lines: None,
                };
                self.last_heartbeat = Some(h.duplicate());
                Some(h)
            },
        }
    }
}

/// A pair just logged is not logged again before the interval passes.
pub proof fn lemma_throttled(times: Map<(Seq<char>, Seq<char>), i64>, app: Seq<char>, entity: Seq<char>, now: i64, later: i64, interval: u64)
    requires
        now <= later,
        later - now < interval * 1_000_000_000,
    ensures
        !heartbeat_due(times.insert((app, entity), now), app, entity, later, interval),
{
}

/// What a heartbeat records about its application: whether it is Xcode
/// (by name), and whether the entity was being edited (Xcode marks edited
/// documents in the window title).
pub fn heartbeat_flags(app_name: &str, entity: &str) -> (r: (bool, bool))
    ensures
        r.0 == (app_name@ == "Xcode"@),
        r.1 == (app_name@ == "Xcode"@ && occurs_in("Edited"@, entity@)),
{
    let is_xcode = str_eq(app_name, "Xcode");
    let is_write = if is_xcode { contains_str(entity, "Edited") } else { false };
    (is_xcode, is_write)
}

} // verus!
