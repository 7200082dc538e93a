//! What the desktop app sends to the server when it syncs: the stored
//! events and AFK periods not yet synced, with absent texts sent empty.

use vstd::prelude::*;
use crate::event_tracker::StoredEvent;

verus! {

/// An event as sent to the server. Instants are nanoseconds.
#[derive(Debug)]
pub struct EventPayload {
    pub timestamp: Option<i64>,
    pub duration: Option<i64>,
    pub category: String,
    pub app_name: String,
    pub entity_name: String,
    pub entity_type: String,
    pub project_name: String,
    pub project_path: String,
    pub branch_name: Option<String>,
    pub language_name: Option<String>,
    pub source_name: String,
    pub end_timestamp: Option<i64>,
}

/// A stored AFK period.
#[derive(Debug, Clone, Copy, PartialEq, Eq, Structural)]
pub struct StoredAfkEvent {
    pub id: Option<i64>,
    pub afk_start: Option<i64>,
    pub afk_end: Option<i64>,
    pub duration: Option<i64>,
}

/// An AFK period as sent to the server; a missing start is sent as the
/// epoch.
#[derive(Debug, Clone, Copy, PartialEq, Eq, Structural)]
pub struct AfkEventPayload {
    pub afk_start: i64,
    pub afk_end: Option<i64>,
    pub duration: Option<i64>,
}

/// The text, or empty when absent.
pub open spec fn text_or_empty(o: Option<String>) -> Seq<char> {
    match o {
        Some(s) => s@,
        None => Seq::empty(),
    }
}

fn or_empty(o: &Option<String>) -> (r: String)
    ensures
        r@ == text_or_empty(*o),
{
    match o {
        Some(s) => s.clone(),
        None => String::new(),
    }
}

/// Whether `p` is the payload of the stored event `e`.
pub open spec fn is_payload_of(p: EventPayload, e: StoredEvent) -> bool {
    &&& p.timestamp == e.timestamp
    &&& p.duration == e.duration
    &&& p.category@ == text_or_empty(e.category)
    &&& p.app_name@ == e.app_name@
    &&& p.entity_name@ == text_or_empty(e.entity_name)
    &&& p.entity_type@ == text_or_empty(e.entity_type)
    &&& p.project_name@ == text_or_empty(e.project_name)
    &&& p.project_path@ == text_or_empty(e.project_path)
    &&& p.branch_name.deep_view() == e.branch_name.deep_view()
    &&& p.language_name.deep_view() == e.language_name.deep_view()
    &&& p.source_name@ == e.source_name@
    &&& p.end_timestamp == e.end_timestamp
}

/// The payload of one stored event.
pub fn event_payload(e: &StoredEvent) -> (p: EventPayload)
    ensures
        is_payload_of(p, *e),
{
    EventPayload {
        timestamp: e.timestamp,
        duration: e.duration,
        category: or_empty(&e.category),
        app_name: e.app_name.clone(),
        entity_name: or_empty(&e.entity_name),
        entity_type: or_empty(&e.entity_type),
        project_name: or_empty(&e.project_name),
        project_path: or_empty(&e.project_path),
        branch_name: e.branch_name.clone(),
        language_name: e.language_name.clone(),
        source_name: e.source_name.clone(),
        end_timestamp: e.end_timestamp,
    }
}

/// The payload of the unsynced events, one entry per event, in order.
pub fn events_payload(events: &Vec<StoredEvent>) -> (r: Vec<EventPayload>)
    ensures
        r@.len() == events@.len(),
        forall|i: int| 0 <= i < events@.len() ==> is_payload_of(#[trigger] r@[i], events@[i]),
{
    let mut out: Vec<EventPayload> = Vec::new();
    let mut i: usize = 0;
    while i < events.len()
        invariant
            i <= events@.len(),
            out@.len() == i,
            forall|j: int| 0 <= j < i ==> is_payload_of(#[trigger] out@[j], events@[j]),
        decreases events@.len() - i,
    {
        out.push(event_payload(&events[i]));
        i += 1;
    }
    out
}

/// The payload of one stored AFK period.
pub open spec fn afk_payload_of(a: StoredAfkEvent) -> AfkEventPayload {
    AfkEventPayload {
        afk_start: match a.afk_start {
            Some(s) => s,
            None => 0,
        },
        afk_end: a.afk_end,
        duration: a.duration,
    }
}

/// The payload of the unsynced AFK periods, in order.
pub fn afk_payload(events: &Vec<StoredAfkEvent>) -> (r: Vec<AfkEventPayload>)
    ensures
        r@ == events@.map_values(|a: StoredAfkEvent| afk_payload_of(a)),
{
    let mut out: Vec<AfkEventPayload> = Vec::new();
    let mut i: usize = 0;
    while i < events.len()
        invariant
            i <= events@.len(),
            out@ == events@.take(i as int).map_values(|a: StoredAfkEvent| afk_payload_of(a)),
        decreases events@.len() - i,
    {
        let a = events[i];
        let start = match a.afk_start {
            Some(s) => s,
            None => 0,
        };
        out.push(AfkEventPayload { afk_start: start, afk_end: a.afk_end, duration: a.duration });
        assert(events@.take(i + 1).map_values(|a: StoredAfkEvent| afk_payload_of(a)) =~= events@.take(
            i as int,
        ).map_values(|a: StoredAfkEvent| afk_payload_of(a)).push(afk_payload_of(a)));
        i += 1;
    }
    assert(events@.take(events@.len() as int) =~= events@);
    out
}

/// The stored form of an AFK period the tracker closed.
pub fn stored_afk(e: &crate::afk::AfkEvent) -> (r: StoredAfkEvent)
    ensures
        r == (StoredAfkEvent {
            id: None,
            afk_start: Some(e.afk_start),
            afk_end: Some(e.afk_end),
            duration: Some(e.duration),
        }),
{
    StoredAfkEvent { id: None, afk_start: Some(e.afk_start), afk_end: Some(e.afk_end), duration: Some(e.duration) }
}

/// A stored heartbeat. Instants are nanoseconds since the epoch.
#[derive(Debug)]
pub struct StoredHeartbeat {
    pub timestamp: i64,
    pub project_name: Option<String>,
    pub project_path: Option<String>,
    pub entity_name: String,
    pub entity_type: String,
    pub branch_name: Option<String>,
    pub language_name: Option<String>,
    pub app_name: String,
    pub is_write: Option<bool>,
    pub lines: Option<i64>,
    pub cursorpos: Option<i64>,
}

/// The stored form of a logged heartbeat: stamped `now` when it carries no
/// timestamp, its entity kind by name; `cursorpos` is the cursor position
/// the caller took with it.
pub fn stored_heartbeat(h: &crate::heartbeat::Heartbeat, cursorpos: Option<i64>, now: i64) -> (r: StoredHeartbeat)
    ensures
        r.timestamp == (match h.timestamp {
            Some(t) => t,
            None => now,
        }),
        r.project_name == h.project_name,
        r.project_path == h.project_path,
        r.entity_name == h.entity_name,
        r.entity_type@ == crate::monitored_app::entity_name_of(h.entity_type),
        r.branch_name == h.branch_name,
        r.language_name == h.language_name,
        r.app_name == h.app_name,
        r.is_write == Some(h.is_write),
        r.lines == h.lines,
        r.cursorpos == cursorpos,
{
    StoredHeartbeat {
        timestamp: match h.timestamp {
            Some(t) => t,
            None => now,
        },
        project_name: h.project_name.clone(),
        project_path: h.project_path.clone(),
        entity_name: h.entity_name.clone(),
        entity_type: String::from_str(h.entity_type.name()),
        branch_name: h.branch_name.clone(),
        language_name: h.language_name.clone(),
        app_name: h.app_name.clone(),
        is_write: Some(h.is_write),
        lines: h.lines,
        cursorpos,
    }
}

/// A heartbeat as sent to the server.
#[derive(Debug)]
pub struct HeartbeatPayload {
    pub timestamp: i64,
    pub project_name: String,
    pub project_path: String,
    pub entity_name: String,
    pub entity_type: String,
    pub branch_name: String,
    pub language_name: Option<String>,
    pub app_name: String,
    pub is_write: bool,
    pub lines: Option<i64>,
    pub cursorpos: Option<i64>,
}

/// Whether `p` is the payload of the stored heartbeat `h`: absent texts
/// are sent empty, an unknown write flag as not written, and the branch
/// field carries the entity name, as the server sync sends it.
pub open spec fn is_heartbeat_payload_of(p: HeartbeatPayload, h: StoredHeartbeat) -> bool {
    &&& p.timestamp == h.timestamp
    &&& p.project_name@ == text_or_empty(h.project_name)
    &&& p.project_path@ == text_or_empty(h.project_path)
    &&& p.entity_name@ == h.entity_name@
    &&& p.entity_type@ == h.entity_type@
    &&& p.branch_name@ == h.entity_name@
    &&& p.language_name.deep_view() == h.language_name.deep_view()
    &&& p.app_name@ == h.app_name@
    &&& p.is_write == (h.is_write == Some(true))
    &&& p.lines == h.lines
    &&& p.cursorpos == h.cursorpos
}

/// The payload of the unsynced heartbeats, one entry per heartbeat, in
/// order.
pub fn heartbeats_payload(hbs: &Vec<StoredHeartbeat>) -> (r: Vec<HeartbeatPayload>)
    ensures
        r@.len() == hbs@.len(),
        forall|i: int| 0 <= i < hbs@.len() ==> is_heartbeat_payload_of(#[trigger] r@[i], hbs@[i]),
{
    let mut out: Vec<HeartbeatPayload> = Vec::new();
    let mut i: usize = 0;
    while i < hbs.len()
        invariant
            i <= hbs@.len(),
            out@.len() == i,
            forall|j: int| 0 <= j < i ==> is_heartbeat_payload_of(#[trigger] out@[j], hbs@[j]),
        decreases hbs@.len() - i,
    {
        let h = &hbs[i];
        out.push(HeartbeatPayload {
            timestamp: h.timestamp,
            project_name: or_empty(&h.project_name),
            project_path: or_empty(&h.project_path),
            entity_name: h.entity_name.clone(),
            entity_type: h.entity_type.clone(),
            branch_name: h.entity_name.clone(),
            language_name: h.language_name.clone(),
            app_name: h.app_name.clone(),
            is_write: match h.is_write {
                Some(w) => w,
                None => false,
            },
            lines: h.lines,
            cursorpos: h.cursorpos,
        });
        i += 1;
    }
    out
}

/// The kinds of record the desktop app syncs, in the order it syncs them.
#[derive(Debug, Clone, Copy, PartialEq, Eq, Structural)]
pub enum SyncKind {
    Events,
    Afk,
}

/// What the sync must do next.
#[derive(Debug)]
pub enum SyncAction {
    /// Read the unsynced records of the kind.
    Fetch(SyncKind),
    /// Send the records read to the server.
    Send(SyncKind),
    /// Mark the records sent as synced.
    MarkSynced(SyncKind),
    /// Delete the old synced records of the kind.
    DeleteSynced(SyncKind),
    /// The sync is over.
    Done,
    /// The sync stops with this database error.
    Fail(String),
}

/// What comes after the records of `kind`: the next kind, or the end.
pub open spec fn after_kind(kind: SyncKind) -> SyncAction {
    match kind {
        SyncKind::Events => SyncAction::Fetch(SyncKind::Afk),
        SyncKind::Afk => SyncAction::Done,
    }
}

fn next_kind(kind: SyncKind) -> (r: SyncAction)
    ensures
        r == after_kind(kind),
{
    match kind {
        SyncKind::Events => SyncAction::Fetch(SyncKind::Afk),
        SyncKind::Afk => SyncAction::Done,
    }
}

/// What a step of the sync came back with.
pub enum SyncOutcome {
    /// The unsynced records were read: how many, or the database error.
    Fetched(Result<usize, String>),
    /// They were sent: whether the server accepted them.
    Sent(bool),
    /// They were marked synced, or the database error.
    Marked(Result<(), String>),
    /// Old synced records were deleted, or the database error.
    Deleted(Result<(), String>),
}

/// The next action after a step on the records of `kind`: an empty batch
/// is skipped and a non-empty one sent; records are marked synced only
/// when the server accepted them (a refused or failed send is reported
/// and the sync goes on with the next kind); old synced records are then
/// deleted; a database error stops the sync.
pub open spec fn sync_next_of(kind: SyncKind, o: SyncOutcome) -> SyncAction {
    match o {
        SyncOutcome::Fetched(Err(m)) => SyncAction::Fail(m),
        SyncOutcome::Fetched(Ok(n)) => if n == 0 { after_kind(kind) } else { SyncAction::Send(kind) },
        SyncOutcome::Sent(accepted) => if accepted { SyncAction::MarkSynced(kind) } else { after_kind(kind) },
        SyncOutcome::Marked(Err(m)) => SyncAction::Fail(m),
        SyncOutcome::Marked(Ok(_)) => SyncAction::DeleteSynced(kind),
        SyncOutcome::Deleted(Err(m)) => SyncAction::Fail(m),
        SyncOutcome::Deleted(Ok(_)) => after_kind(kind),
    }
}

/// The first step of a sync: read the unsynced events.
pub fn sync_start() -> (r: SyncAction)
    ensures
        r == SyncAction::Fetch(SyncKind::Events),
{
    SyncAction::Fetch(SyncKind::Events)
}

/// One step of the sync of the records of `kind` (see [`sync_next_of`]).
pub fn sync_next(kind: SyncKind, o: SyncOutcome) -> (r: SyncAction)
    ensures
        r == sync_next_of(kind, o),
{
    match o {
        SyncOutcome::Fetched(Err(m)) => SyncAction::Fail(m),
        SyncOutcome::Fetched(Ok(n)) => if n == 0 {
            next_kind(kind)
        } else {
            SyncAction::Send(kind)
        },
        SyncOutcome::Sent(accepted) => if accepted {
            SyncAction::MarkSynced(kind)
        } else {
            next_kind(kind)
        },
        SyncOutcome::Marked(Err(m)) => SyncAction::Fail(m),
        SyncOutcome::Marked(Ok(_)) => SyncAction::DeleteSynced(kind),
        SyncOutcome::Deleted(Err(m)) => SyncAction::Fail(m),
        SyncOutcome::Deleted(Ok(_)) => next_kind(kind),
    }
}

/// Records are marked synced only after the server accepted them; empty
/// batches are never sent; only database errors stop the sync.
pub proof fn lemma_sync_rules(kind: SyncKind, o: SyncOutcome)
    ensures
        sync_next_of(kind, o) matches SyncAction::MarkSynced(k) ==> k == kind && o == SyncOutcome::Sent(true),
        o == SyncOutcome::Fetched(Ok(0)) ==> sync_next_of(kind, o) !is Send,
        sync_next_of(kind, o) is Fail ==> o !is Sent,
        sync_next_of(kind, o) matches SyncAction::Send(k) ==> k == kind && (o matches SyncOutcome::Fetched(Ok(n)) && n > 0),
{
}

} // verus!
