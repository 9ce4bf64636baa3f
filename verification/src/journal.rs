//! The recording journal: which sessions are being recorded, and which finished parts have not yet
//! been handed over to the upload queue. It is what a restart recovers from.

use crate::clock::{
    format_id, id_text, now_millis, now_seconds, saturating_gap, IdCounter,
    MAX_TIMESTAMP,
};
use crate::lists::{
    first_index, is_ordered, law_ordered, lemma_first_index, lemma_first_index_found, ordered,
    stable_sort, Ranked,
};
use crate::recording::{
    next_after, CoreCredentials, RecordingPlan, RecordingSegment, LIVE_OFFLINE_GRACE_SECS,
    SEGMENT_TARGET_BYTES,
};
use crate::text::{
    lemma_pair_le_total, lemma_pair_le_transitive, not_after, pair_le, same,
};
use vstd::prelude::*;

verus! {

/// A session that is being recorded, or was when the process died.
#[derive(Debug)]
pub struct RecordingJournalSession {
    pub room_url: String,
    pub streamer_name: String,
    pub live_session_id: String,
    pub session_started_at: i64,
    pub next_segment_index: u32,
    pub current_segment_started_at: i64,
    pub last_heartbeat_at: i64,
}

/// Model of a session in the journal.
pub struct JournalSessionModel {
    pub room_url: Seq<char>,
    pub streamer_name: Seq<char>,
    pub live_session_id: Seq<char>,
    pub session_started_at: i64,
    pub next_segment_index: u32,
    pub current_segment_started_at: i64,
    pub last_heartbeat_at: i64,
}

impl View for RecordingJournalSession {
    type V = JournalSessionModel;

    open spec fn view(&self) -> JournalSessionModel {
        JournalSessionModel {
            room_url: self.room_url@,
            streamer_name: self.streamer_name@,
            live_session_id: self.live_session_id@,
            session_started_at: self.session_started_at,
            next_segment_index: self.next_segment_index,
            current_segment_started_at: self.current_segment_started_at,
            last_heartbeat_at: self.last_heartbeat_at,
        }
    }
}

impl Clone for RecordingJournalSession {
    fn clone(&self) -> (r: Self)
        ensures
            r == *self,
    {
        RecordingJournalSession {
            room_url: self.room_url.clone(),
            streamer_name: self.streamer_name.clone(),
            live_session_id: self.live_session_id.clone(),
            session_started_at: self.session_started_at,
            next_segment_index: self.next_segment_index,
            current_segment_started_at: self.current_segment_started_at,
            last_heartbeat_at: self.last_heartbeat_at,
        }
    }
}

/// The sessions of a journal, by their models.
pub open spec fn session_models(v: Seq<RecordingJournalSession>) -> Seq<JournalSessionModel> {
    v.map_values(|s: RecordingJournalSession| s@)
}

/// The journal as it is kept on disk.
#[derive(Debug)]
pub struct RecordingJournalStore {
    pub sessions: Vec<RecordingJournalSession>,
    pub pending_segments: Vec<RecordingSegment>,
}

impl Default for RecordingJournalStore {
    fn default() -> (r: Self)
        ensures
            r.sessions@.len() == 0,
            r.pending_segments@.len() == 0,
    {
        RecordingJournalStore { sessions: Vec::new(), pending_segments: Vec::new() }
    }
}

/// What a recording that is about to start has to know of its session.
#[derive(Debug)]
pub struct PreparedRecordingSession {
    pub live_session_id: String,
    pub session_started_at: i64,
    pub next_segment_index: u32,
    pub current_segment_started_at: i64,
    /// A session of the same room that has gone stale: its identifier and its last sign of life.
    pub stale_session: Option<(String, i64)>,
}

impl Ranked for RecordingSegment {
    open spec fn ranks_before(self, other: Self) -> bool {
        pair_le(
            self.live_session_id@,
            self.segment_index as int,
            other.live_session_id@,
            other.segment_index as int,
        )
    }

    fn not_after(&self, other: &Self) -> (r: bool) {
        if same(self.live_session_id.as_str(), other.live_session_id.as_str()) {
            self.segment_index <= other.segment_index
        } else {
            not_after(self.live_session_id.as_str(), other.live_session_id.as_str())
        }
    }

    proof fn total(a: Self, b: Self) {
        lemma_pair_le_total(
            a.live_session_id@,
            a.segment_index as int,
            b.live_session_id@,
            b.segment_index as int,
        );
    }

    proof fn transitive(a: Self, b: Self, c: Self) {
        lemma_pair_le_transitive(
            a.live_session_id@,
            a.segment_index as int,
            b.live_session_id@,
            b.segment_index as int,
            c.live_session_id@,
            c.segment_index as int,
        );
    }
}

/// The predicate of being the session of a room.
pub open spec fn in_room(room_url: Seq<char>) -> spec_fn(JournalSessionModel) -> bool {
    |s: JournalSessionModel| s.room_url == room_url
}

/// The predicate of being the session with an identifier.
pub open spec fn has_session_id(id: Seq<char>) -> spec_fn(JournalSessionModel) -> bool {
    |s: JournalSessionModel| s.live_session_id == id
}

/// Whether a session whose last sign of life was at `heartbeat` can still be resumed at `now`.
pub open spec fn is_resumable(heartbeat: i64, now: i64) -> bool {
    now - heartbeat <= LIVE_OFFLINE_GRACE_SECS
}

/// Whether a session whose last sign of life was at `heartbeat` can still be resumed at `now`.
pub fn resumable(heartbeat: i64, now: i64) -> (r: bool)
    ensures
        r == is_resumable(heartbeat, now),
{
    saturating_gap(now, heartbeat) <= LIVE_OFFLINE_GRACE_SECS as i64
}

fn find_room(sessions: &Vec<RecordingJournalSession>, room_url: &str) -> (r: usize)
    ensures
        r <= sessions.len(),
        r == first_index(session_models(sessions@), in_room(room_url@)),
        r < sessions.len() ==> sessions@[r as int]@.room_url == room_url@,
{
    let n: usize = sessions.len();
    let ghost models = session_models(sessions@);
    let mut i: usize = 0;
    while i < n
        invariant
            i <= n,
            n == sessions.len(),
            models == session_models(sessions@),
            forall|j: int| 0 <= j < i ==> !in_room(room_url@)(#[trigger] models[j]),
        decreases n - i,
    {
        assert(models[i as int] == sessions@[i as int]@);
        if same(sessions[i].room_url.as_str(), room_url) {
            proof {
                lemma_first_index(models, in_room(room_url@), i as int);
            }
            return i;
        }
        i = i + 1;
    }
    proof {
        lemma_first_index(models, in_room(room_url@), n as int);
    }
    n
}

fn find_session(sessions: &Vec<RecordingJournalSession>, id: &str) -> (r: usize)
    ensures
        r <= sessions.len(),
        r == first_index(session_models(sessions@), has_session_id(id@)),
        r < sessions.len() ==> sessions@[r as int]@.live_session_id == id@,
{
    let n: usize = sessions.len();
    let ghost models = session_models(sessions@);
    let mut i: usize = 0;
    while i < n
        invariant
            i <= n,
            n == sessions.len(),
            models == session_models(sessions@),
            forall|j: int| 0 <= j < i ==> !has_session_id(id@)(#[trigger] models[j]),
        decreases n - i,
    {
        assert(models[i as int] == sessions@[i as int]@);
        if same(sessions[i].live_session_id.as_str(), id) {
            proof {
                lemma_first_index(models, has_session_id(id@), i as int);
            }
            return i;
        }
        i = i + 1;
    }
    proof {
        lemma_first_index(models, has_session_id(id@), n as int);
    }
    n
}

/// A new session of a room, as the journal keeps it.
pub open spec fn opened_session(
    room_url: Seq<char>,
    streamer_name: Seq<char>,
    id: Seq<char>,
    now: i64,
) -> JournalSessionModel {
    JournalSessionModel {
        room_url,
        streamer_name,
        live_session_id: id,
        session_started_at: now,
        next_segment_index: 1,
        current_segment_started_at: now,
        last_heartbeat_at: now,
    }
}

/// The sessions of the journal once a room is prepared at `now`: a session that is still
/// resumable goes on, any other of the room is replaced by a new one with the identifier `fresh`.
pub open spec fn sessions_prepared(
    sessions: Seq<JournalSessionModel>,
    room_url: Seq<char>,
    streamer_name: Seq<char>,
    now: i64,
    fresh: Seq<char>,
) -> Seq<JournalSessionModel> {
    let k = first_index(sessions, in_room(room_url));
    let opened = opened_session(room_url, streamer_name, fresh, now);
    if k == sessions.len() {
        sessions.push(opened)
    } else if is_resumable(sessions[k].last_heartbeat_at, now) {
        sessions.update(
            k,
            JournalSessionModel { streamer_name, last_heartbeat_at: now, ..sessions[k] },
        )
    } else {
        sessions.remove(k).push(opened)
    }
}

/// A session of the room goes on at `now`.
pub open spec fn resumes(
    sessions: Seq<JournalSessionModel>,
    room_url: Seq<char>,
    now: i64,
) -> bool {
    let k = first_index(sessions, in_room(room_url));
    k < sessions.len() && is_resumable(sessions[k].last_heartbeat_at, now)
}

/// What a recording learns when a room is prepared at `now`.
pub open spec fn is_prepared_for(
    sessions: Seq<JournalSessionModel>,
    room_url: Seq<char>,
    now: i64,
    fresh: Seq<char>,
    r: PreparedRecordingSession,
) -> bool {
    let k = first_index(sessions, in_room(room_url));
    if resumes(sessions, room_url, now) {
        &&& r.live_session_id@ == sessions[k].live_session_id
        &&& r.session_started_at == sessions[k].session_started_at
        &&& r.next_segment_index == if sessions[k].next_segment_index == 0 {
            1
        } else {
            sessions[k].next_segment_index
        }
        &&& r.current_segment_started_at == sessions[k].current_segment_started_at
        &&& r.stale_session is None
    } else {
        &&& r.live_session_id@ == fresh
        &&& r.session_started_at == now
        &&& r.next_segment_index == 1
        &&& r.current_segment_started_at == now
        &&& if k == sessions.len() {
            r.stale_session is None
        } else {
            r.stale_session matches Some((id, at)) && id@ == sessions[k].live_session_id && at
                == sessions[k].last_heartbeat_at
        }
    }
}

/// Finds or opens the session of a room for a recording that starts at `now`. A session of the
/// room with a sign of life within the grace period is resumed; an older one is dropped from the
/// journal and reported as stale, and a new session begins.
pub fn prepare_session_at(
    store: &mut RecordingJournalStore,
    room_url: &str,
    streamer_name: &str,
    now: i64,
    fresh_id: String,
) -> (r: PreparedRecordingSession)
    ensures
        final(store).pending_segments == old(store).pending_segments,
        session_models(final(store).sessions@) == sessions_prepared(
            session_models(old(store).sessions@),
            room_url@,
            streamer_name@,
            now,
            fresh_id@,
        ),
        is_prepared_for(session_models(old(store).sessions@), room_url@, now, fresh_id@, r),
{
    let ghost before = session_models(store.sessions@);
    let position: usize = find_room(&store.sessions, room_url);
    let mut stale_session: Option<(String, i64)> = None;
    if position < store.sessions.len() {
        let existing = store.sessions[position].clone();
        assert(existing@ == before[position as int]);
        if resumable(existing.last_heartbeat_at, now) {
            let prepared = PreparedRecordingSession {
                live_session_id: existing.live_session_id.clone(),
                session_started_at: existing.session_started_at,
                next_segment_index: if existing.next_segment_index == 0 {
                    1
                } else {
                    existing.next_segment_index
                },
                current_segment_started_at: existing.current_segment_started_at,
                stale_session: None,
            };
            let resumed = RecordingJournalSession {
                streamer_name: streamer_name.to_owned(),
                last_heartbeat_at: now,
                ..existing
            };
            store.sessions.set(position, resumed);
            assert(session_models(store.sessions@) =~= before.update(
                position as int,
                JournalSessionModel {
                    streamer_name: streamer_name@,
                    last_heartbeat_at: now,
                    ..before[position as int]
                },
            ));
            return prepared;
        }
        stale_session = Some((existing.live_session_id, existing.last_heartbeat_at));
        store.sessions.remove(position);
        assert(session_models(store.sessions@) =~= before.remove(position as int));
    }
    let ghost kept = session_models(store.sessions@);
    store.sessions.push(
        RecordingJournalSession {
            room_url: room_url.to_owned(),
            streamer_name: streamer_name.to_owned(),
            live_session_id: fresh_id.clone(),
            session_started_at: now,
            next_segment_index: 1,
            current_segment_started_at: now,
            last_heartbeat_at: now,
        },
    );
    assert(session_models(store.sessions@) =~= kept.push(
        opened_session(room_url@, streamer_name@, fresh_id@, now),
    ));
    PreparedRecordingSession {
        live_session_id: fresh_id,
        session_started_at: now,
        next_segment_index: 1,
        current_segment_started_at: now,
        stale_session,
    }
}

/// Finds or opens the session of a room for a recording that starts now. A number is drawn only for
/// a session that is opened.
pub fn prepare_session(
    store: &mut RecordingJournalStore,
    counter: &mut IdCounter,
    room_url: &str,
    streamer_name: &str,
) -> (r: PreparedRecordingSession)
    ensures
        final(store).pending_segments == old(store).pending_segments,
        exists|now: i64, millis: int|
            0 <= now < MAX_TIMESTAMP && 0 <= millis < MAX_TIMESTAMP * 1000 && session_models(
                final(store).sessions@,
            ) == #[trigger] sessions_prepared(
                session_models(old(store).sessions@),
                room_url@,
                streamer_name@,
                now,
                id_text("android"@, millis, old(counter).next as nat),
            ) && is_prepared_for(
                session_models(old(store).sessions@),
                room_url@,
                now,
                id_text("android"@, millis, old(counter).next as nat),
                r,
            ) && final(counter).next == if resumes(
                session_models(old(store).sessions@),
                room_url@,
                now,
            ) {
                old(counter).next as int
            } else {
                (old(counter).next + 1) % 0x1_0000_0000_0000_0000
            },
{
    let now: i64 = now_seconds();
    let ghost before = session_models(store.sessions@);
    let position: usize = find_room(&store.sessions, room_url);
    if position < store.sessions.len() {
        assert(before[position as int] == store.sessions@[position as int]@);
        if resumable(store.sessions[position].last_heartbeat_at, now) {
            let resumed = prepare_session_at(
                store,
                room_url,
                streamer_name,
                now,
                "".to_owned(),
            );
            proof {
                let id = id_text("android"@, 0, old(counter).next as nat);
                assert(session_models(store.sessions@) == sessions_prepared(
                    before,
                    room_url@,
                    streamer_name@,
                    now,
                    id,
                ));
                assert(is_prepared_for(before, room_url@, now, id, resumed));
            }
            return resumed;
        }
    }
    let millis: i64 = now_millis();
    let seq: u64 = counter.take();
    let fresh_id = format_id("android", millis, seq);
    prepare_session_at(store, room_url, streamer_name, now, fresh_id)
}

/// The sessions after a sign of life from a room.
pub open spec fn sessions_alive(
    sessions: Seq<JournalSessionModel>,
    room_url: Seq<char>,
    now: i64,
) -> Seq<JournalSessionModel> {
    let k = first_index(sessions, in_room(room_url));
    if k == sessions.len() {
        sessions
    } else {
        sessions.update(k, JournalSessionModel { last_heartbeat_at: now, ..sessions[k] })
    }
}

/// Notes a sign of life from the recording of a room at `now`.
pub fn heartbeat_at(store: &mut RecordingJournalStore, room_url: &str, now: i64)
    ensures
        final(store).pending_segments == old(store).pending_segments,
        session_models(final(store).sessions@) == sessions_alive(
            session_models(old(store).sessions@),
            room_url@,
            now,
        ),
{
    let ghost before = session_models(store.sessions@);
    let position: usize = find_room(&store.sessions, room_url);
    if position < store.sessions.len() {
        let existing = store.sessions[position].clone();
        assert(existing@ == before[position as int]);
        store.sessions.set(
            position,
            RecordingJournalSession { last_heartbeat_at: now, ..existing },
        );
        assert(session_models(store.sessions@) =~= before.update(
            position as int,
            JournalSessionModel { last_heartbeat_at: now, ..before[position as int] },
        ));
    }
}

/// Notes a sign of life from the recording of a room.
pub fn heartbeat(store: &mut RecordingJournalStore, room_url: &str)
    ensures
        final(store).pending_segments == old(store).pending_segments,
        exists|now: i64|
            0 <= now < MAX_TIMESTAMP && session_models(final(store).sessions@)
                == #[trigger] sessions_alive(session_models(old(store).sessions@), room_url@, now),
{
    let now: i64 = now_seconds();
    heartbeat_at(store, room_url, now);
}

/// True when the part `index` of a session waits to be handed over.
pub open spec fn is_pending(
    pending: Seq<RecordingSegment>,
    session: Seq<char>,
    index: u32,
) -> bool {
    exists|i: int|
        0 <= i < pending.len() && (#[trigger] pending[i]).live_session_id@ == session
            && pending[i].segment_index == index
}

/// Whether the part `index` of a session waits to be handed over.
pub fn has_pending(store: &RecordingJournalStore, session: &str, index: u32) -> (r: bool)
    ensures
        r == is_pending(store.pending_segments@, session@, index),
{
    let n: usize = store.pending_segments.len();
    let mut i: usize = 0;
    while i < n
        invariant
            i <= n,
            n == store.pending_segments.len(),
            forall|j: int|
                0 <= j < i ==> !((#[trigger] store.pending_segments@[j]).live_session_id@
                    == session@ && store.pending_segments@[j].segment_index == index),
        decreases n - i,
    {
        let segment = &store.pending_segments[i];
        if same(segment.live_session_id.as_str(), session) && segment.segment_index == index {
            assert(store.pending_segments@[i as int].live_session_id@ == session@);
            return true;
        }
        i = i + 1;
    }
    false
}

/// The parts that wait to be handed over once `segment` is registered: it joins them once, and
/// they are kept in order of session and part number.
pub open spec fn pending_with(
    pending: Seq<RecordingSegment>,
    segment: RecordingSegment,
) -> Seq<RecordingSegment> {
    if is_pending(pending, segment.live_session_id@, segment.segment_index) {
        pending
    } else {
        ordered(pending.push(segment))
    }
}

/// The sessions once a part of a room is registered: its session goes on with the next number
/// and begins its next part where this one ended.
pub open spec fn sessions_advanced(
    sessions: Seq<JournalSessionModel>,
    room_url: Seq<char>,
    segment: RecordingSegment,
    heartbeat: i64,
) -> Seq<JournalSessionModel> {
    let k = first_index(sessions, in_room(room_url));
    if k == sessions.len() {
        sessions
    } else {
        let following = next_after(segment.segment_index);
        sessions.update(
            k,
            JournalSessionModel {
                next_segment_index: if sessions[k].next_segment_index < following {
                    following
                } else {
                    sessions[k].next_segment_index
                },
                current_segment_started_at: segment.ended_at,
                last_heartbeat_at: heartbeat,
                ..sessions[k]
            },
        )
    }
}

/// Registers a finished part of a room before anything else is done with it, with the given last
/// sign of life for its session. Registering a part twice keeps one entry.
pub fn register_recovered_segment(
    store: &mut RecordingJournalStore,
    room_url: &str,
    segment: &RecordingSegment,
    heartbeat: i64,
)
    ensures
        final(store).pending_segments@ == pending_with(old(store).pending_segments@, *segment),
        session_models(final(store).sessions@) == sessions_advanced(
            session_models(old(store).sessions@),
            room_url@,
            *segment,
            heartbeat,
        ),
{
    if !has_pending(store, segment.live_session_id.as_str(), segment.segment_index) {
        let mut pending: Vec<RecordingSegment> = Vec::new();
        std::mem::swap(&mut pending, &mut store.pending_segments);
        pending.push(segment.clone());
        store.pending_segments = stable_sort(pending);
    }
    let ghost before = session_models(store.sessions@);
    let position: usize = find_room(&store.sessions, room_url);
    if position < store.sessions.len() {
        let existing = store.sessions[position].clone();
        assert(existing@ == before[position as int]);
        let following: u32 = segment.segment_index.saturating_add(1);
        let next_segment_index: u32 = if existing.next_segment_index < following {
            following
        } else {
            existing.next_segment_index
        };
        store.sessions.set(
            position,
            RecordingJournalSession {
                next_segment_index,
                current_segment_started_at: segment.ended_at,
                last_heartbeat_at: heartbeat,
                ..existing
            },
        );
        assert(session_models(store.sessions@) =~= before.update(
            position as int,
            JournalSessionModel {
                next_segment_index,
                current_segment_started_at: segment.ended_at,
                last_heartbeat_at: heartbeat,
                ..before[position as int]
            },
        ));
    }
}

/// Registers a part of a room that has just been finished. From here on a crash can only repeat
/// the work that follows, not lose the part.
pub fn register_completed_segment(
    store: &mut RecordingJournalStore,
    room_url: &str,
    segment: &RecordingSegment,
)
    ensures
        final(store).pending_segments@ == pending_with(old(store).pending_segments@, *segment),
        exists|now: i64|
            0 <= now < MAX_TIMESTAMP && session_models(final(store).sessions@)
                == #[trigger] sessions_advanced(
                session_models(old(store).sessions@),
                room_url@,
                *segment,
                now,
            ),
{
    let now: i64 = now_seconds();
    register_recovered_segment(store, room_url, segment, now);
}

/// The predicate of not being the part `index` of a session.
pub open spec fn is_other_part(session: Seq<char>, index: u32) -> spec_fn(RecordingSegment) -> bool {
    |s: RecordingSegment| !(s.live_session_id@ == session && s.segment_index == index)
}

/// Takes a part off the list of parts that wait to be handed over. This is for the moment when the
/// finished file is in place and the upload queue has taken the part.
pub fn complete_segment_handoff(
    store: &mut RecordingJournalStore,
    live_session_id: &str,
    segment_index: u32,
)
    ensures
        final(store).sessions == old(store).sessions,
        final(store).pending_segments@ == old(store).pending_segments@.filter(
            is_other_part(live_session_id@, segment_index),
        ),
{
    let ghost keep = is_other_part(live_session_id@, segment_index);
    let ghost all = store.pending_segments@;
    let n: usize = store.pending_segments.len();
    let mut kept: Vec<RecordingSegment> = Vec::new();
    let mut i: usize = 0;
    reveal(Seq::filter);
    assert(all.take(0) =~= Seq::empty());
    while i < n
        invariant
            i <= n,
            n == store.pending_segments.len(),
            all == store.pending_segments@,
            keep == is_other_part(live_session_id@, segment_index),
            kept@ == all.take(i as int).filter(keep),
        decreases n - i,
    {
        let segment = &store.pending_segments[i];
        proof {
            reveal(Seq::filter);
            assert(all.take(i + 1).drop_last() =~= all.take(i as int));
            assert(all.take(i + 1).last() == all[i as int]);
        }
        if !(same(segment.live_session_id.as_str(), live_session_id) && segment.segment_index
            == segment_index) {
            kept.push(segment.clone());
        }
        i = i + 1;
    }
    assert(all.take(n as int) =~= all);
    store.pending_segments = kept;
}

/// The predicate of not being the session of a room.
pub open spec fn is_other_room(room_url: Seq<char>) -> spec_fn(RecordingJournalSession) -> bool {
    |s: RecordingJournalSession| s.room_url@ != room_url
}

/// Takes the session of a room off the journal.
pub fn finish_session(store: &mut RecordingJournalStore, room_url: &str)
    ensures
        final(store).pending_segments == old(store).pending_segments,
        final(store).sessions@ == old(store).sessions@.filter(is_other_room(room_url@)),
{
    let ghost keep = is_other_room(room_url@);
    let ghost all = store.sessions@;
    let n: usize = store.sessions.len();
    let mut kept: Vec<RecordingJournalSession> = Vec::new();
    let mut i: usize = 0;
    reveal(Seq::filter);
    assert(all.take(0) =~= Seq::empty());
    while i < n
        invariant
            i <= n,
            n == store.sessions.len(),
            all == store.sessions@,
            keep == is_other_room(room_url@),
            kept@ == all.take(i as int).filter(keep),
        decreases n - i,
    {
        let session = &store.sessions[i];
        proof {
            reveal(Seq::filter);
            assert(all.take(i + 1).drop_last() =~= all.take(i as int));
            assert(all.take(i + 1).last() == all[i as int]);
        }
        if !same(session.room_url.as_str(), room_url) {
            kept.push(session.clone());
        }
        i = i + 1;
    }
    assert(all.take(n as int) =~= all);
    store.sessions = kept;
}

/// A session that goes on with the part `next_segment_index`, or a later one.
pub open spec fn advanced_to(
    session: JournalSessionModel,
    next_segment_index: u32,
    next_started_at: i64,
) -> JournalSessionModel {
    JournalSessionModel {
        next_segment_index: if session.next_segment_index < next_segment_index {
            next_segment_index
        } else {
            session.next_segment_index
        },
        current_segment_started_at: next_started_at,
        ..session
    }
}

/// Moves a session on to the part `next_segment_index`, which begins at `next_started_at`. The
/// number of the next part never goes back.
pub fn advance_recovered_segment(
    store: &mut RecordingJournalStore,
    live_session_id: &str,
    next_segment_index: u32,
    next_started_at: i64,
)
    ensures
        final(store).pending_segments == old(store).pending_segments,
        ({
            let sessions = session_models(old(store).sessions@);
            let k = first_index(sessions, has_session_id(live_session_id@));
            session_models(final(store).sessions@) == if k == sessions.len() {
                sessions
            } else {
                sessions.update(
                    k,
                    advanced_to(sessions[k], next_segment_index, next_started_at),
                )
            }
        }),
{
    let ghost before = session_models(store.sessions@);
    let position: usize = find_session(&store.sessions, live_session_id);
    if position < store.sessions.len() {
        let existing = store.sessions[position].clone();
        assert(existing@ == before[position as int]);
        let next: u32 = if existing.next_segment_index < next_segment_index {
            next_segment_index
        } else {
            existing.next_segment_index
        };
        store.sessions.set(
            position,
            RecordingJournalSession {
                next_segment_index: next,
                current_segment_started_at: next_started_at,
                ..existing
            },
        );
        assert(session_models(store.sessions@) =~= before.update(
            position as int,
            JournalSessionModel {
                next_segment_index: next,
                current_segment_started_at: next_started_at,
                ..before[position as int]
            },
        ));
    }
}

/// Sorting a list keeps what it contains.
proof fn lemma_ordered_contains(s: Seq<RecordingSegment>, x: RecordingSegment)
    ensures
        ordered(s).contains(x) <==> s.contains(x),
{
    broadcast use vstd::seq_lib::group_to_multiset_ensures;

    law_ordered(s);
    assert(ordered(s).to_multiset().count(x) == s.to_multiset().count(x));
}

/// A part that has been registered waits to be handed over, and so do all that waited before.
pub proof fn law_registered_is_pending(
    pending: Seq<RecordingSegment>,
    segment: RecordingSegment,
    session: Seq<char>,
    index: u32,
)
    ensures
        is_pending(pending_with(pending, segment), session, index) <==> (is_pending(
            pending,
            session,
            index,
        ) || (segment.live_session_id@ == session && segment.segment_index == index)),
{
    if !is_pending(pending, segment.live_session_id@, segment.segment_index) {
        let all = pending.push(segment);
        let sorted = ordered(all);
        if is_pending(sorted, session, index) {
            let i = choose|i: int|
                0 <= i < sorted.len() && (#[trigger] sorted[i]).live_session_id@ == session
                    && sorted[i].segment_index == index;
            assert(sorted.contains(sorted[i]));
            lemma_ordered_contains(all, sorted[i]);
            let j = choose|j: int| 0 <= j < all.len() && all[j] == sorted[i];
            if j < pending.len() {
                assert(pending[j].live_session_id@ == session);
            }
        }
        if is_pending(pending, session, index) {
            let i = choose|i: int|
                0 <= i < pending.len() && (#[trigger] pending[i]).live_session_id@ == session
                    && pending[i].segment_index == index;
            assert(all[i] == pending[i]);
            assert(all.contains(all[i]));
            lemma_ordered_contains(all, all[i]);
            let j = choose|j: int| 0 <= j < sorted.len() && sorted[j] == all[i];
            assert(sorted[j].live_session_id@ == session);
        }
        if segment.live_session_id@ == session && segment.segment_index == index {
            assert(all[pending.len() as int] == segment);
            assert(all.contains(segment));
            lemma_ordered_contains(all, segment);
            let j = choose|j: int| 0 <= j < sorted.len() && sorted[j] == segment;
            assert(sorted[j].live_session_id@ == session);
        }
    }
}

/// Registering the same part a second time changes nothing.
pub proof fn law_registering_twice(pending: Seq<RecordingSegment>, segment: RecordingSegment)
    ensures
        pending_with(pending_with(pending, segment), segment) == pending_with(pending, segment),
{
    law_registered_is_pending(
        pending,
        segment,
        segment.live_session_id@,
        segment.segment_index,
    );
}

/// Handing a part over takes this part off the list and no other.
pub proof fn law_handoff_removes_one(
    pending: Seq<RecordingSegment>,
    session: Seq<char>,
    index: u32,
    other_session: Seq<char>,
    other_index: u32,
)
    ensures
        is_pending(
            pending.filter(is_other_part(session, index)),
            other_session,
            other_index,
        ) <==> (is_pending(pending, other_session, other_index) && !(other_session == session
            && other_index == index)),
{
    let keep = is_other_part(session, index);
    let left = pending.filter(keep);
    if is_pending(left, other_session, other_index) {
        let i = choose|i: int|
            0 <= i < left.len() && (#[trigger] left[i]).live_session_id@ == other_session
                && left[i].segment_index == other_index;
        pending.lemma_filter_pred(keep, i);
        assert(left.contains(left[i]));
        pending.lemma_filter_contains_rev(keep, left[i]);
        let j = choose|j: int| 0 <= j < pending.len() && pending[j] == left[i];
        assert(pending[j].live_session_id@ == other_session);
    }
    if is_pending(pending, other_session, other_index) && !(other_session == session && other_index
        == index) {
        let i = choose|i: int|
            0 <= i < pending.len() && (#[trigger] pending[i]).live_session_id@ == other_session
                && pending[i].segment_index == other_index;
        assert(keep(pending[i]));
        pending.lemma_filter_contains(keep, i);
        let j = choose|j: int| 0 <= j < left.len() && left[j] == pending[i];
        assert(left[j].live_session_id@ == other_session);
    }
}

/// At most one session of the journal belongs to a room.
pub open spec fn rooms_distinct(sessions: Seq<JournalSessionModel>) -> bool {
    forall|i: int, j: int|
        0 <= i < j < sessions.len() ==> (#[trigger] sessions[i]).room_url != (
        #[trigger] sessions[j]).room_url
}

/// Preparing a room keeps one session for each room.
pub proof fn law_rooms_stay_distinct(
    sessions: Seq<JournalSessionModel>,
    room_url: Seq<char>,
    streamer_name: Seq<char>,
    now: i64,
    fresh: Seq<char>,
)
    requires
        rooms_distinct(sessions),
    ensures
        rooms_distinct(sessions_prepared(sessions, room_url, streamer_name, now, fresh)),
{
    lemma_first_index_found(sessions, in_room(room_url));
    let k = first_index(sessions, in_room(room_url));
    let after = sessions_prepared(sessions, room_url, streamer_name, now, fresh);
    if k < sessions.len() && !is_resumable(sessions[k].last_heartbeat_at, now) {
        let kept = sessions.remove(k);
        assert forall|i: int, j: int| 0 <= i < j < after.len() implies (
        #[trigger] after[i]).room_url != (#[trigger] after[j]).room_url by {
            let a = if i < k {
                i
            } else {
                i + 1
            };
            assert(after[i] == sessions[a]);
            if j < kept.len() {
                let b = if j < k {
                    j
                } else {
                    j + 1
                };
                assert(after[j] == sessions[b]);
            } else {
                assert(sessions[a].room_url != sessions[k].room_url);
            }
        }
    }
}

/// A room that comes back within the grace period goes on with the same session and the same
/// numbering of parts: preparing it again opens nothing new.
pub proof fn law_reconnect_resumes(
    sessions: Seq<JournalSessionModel>,
    room_url: Seq<char>,
    streamer_name: Seq<char>,
    now: i64,
    fresh: Seq<char>,
    later: i64,
    other: Seq<char>,
)
    requires
        rooms_distinct(sessions),
        later - now <= LIVE_OFFLINE_GRACE_SECS,
    ensures
        ({
            let after = sessions_prepared(sessions, room_url, streamer_name, now, fresh);
            let again = sessions_prepared(after, room_url, streamer_name, later, other);
            let k = first_index(after, in_room(room_url));
            &&& 0 <= k < after.len()
            &&& after[k].room_url == room_url
            &&& again == after.update(
                k,
                JournalSessionModel { last_heartbeat_at: later, ..after[k] },
            )
        }),
{
    let after = sessions_prepared(sessions, room_url, streamer_name, now, fresh);
    let p = in_room(room_url);
    lemma_first_index_found(sessions, p);
    let k = first_index(sessions, p);
    if k < sessions.len() && is_resumable(sessions[k].last_heartbeat_at, now) {
        lemma_first_index(after, p, k);
    } else if k == sessions.len() {
        lemma_first_index(after, p, k);
    } else {
        let last = after.len() - 1;
        assert forall|i: int| 0 <= i < last implies !p(#[trigger] after[i]) by {
            let a = if i < k {
                i
            } else {
                i + 1
            };
            assert(after[i] == sessions[a]);
            assert(sessions[a].room_url != sessions[k].room_url);
        }
        lemma_first_index(after, p, last);
    }
}

/// Registering a part moves its session past the number of the part, and never back.
pub proof fn law_numbering_advances(
    sessions: Seq<JournalSessionModel>,
    room_url: Seq<char>,
    segment: RecordingSegment,
    heartbeat: i64,
)
    ensures
        ({
            let after = sessions_advanced(sessions, room_url, segment, heartbeat);
            let k = first_index(sessions, in_room(room_url));
            &&& after.len() == sessions.len()
            &&& 0 <= k < sessions.len() && segment.segment_index < u32::MAX
                ==> segment.segment_index < after[k].next_segment_index
            &&& forall|i: int|
                0 <= i < sessions.len() ==> (#[trigger] sessions[i]).next_segment_index
                    <= after[i].next_segment_index && sessions[i].live_session_id
                    == after[i].live_session_id
        }),
{
    lemma_first_index_found(sessions, in_room(room_url));
}

/// The plan of a recording that goes on as the journal prepared it.
pub open spec fn planned_for(
    prepared: PreparedRecordingSession,
    room_url: String,
    display_name: String,
    credentials: CoreCredentials,
    output_dir: String,
) -> RecordingPlan {
    RecordingPlan {
        room_url,
        display_name,
        credentials,
        output_dir,
        live_session_id: Some(prepared.live_session_id),
        session_started_at: Some(prepared.session_started_at),
        next_segment_index: prepared.next_segment_index,
        segment_started_at: Some(prepared.current_segment_started_at),
        segment_target_bytes: SEGMENT_TARGET_BYTES,
    }
}

/// The plan of a recording that goes on where the journal left off: it keeps the session, its
/// start, the number of the next part and the start of that part.
pub fn plan_for(
    prepared: PreparedRecordingSession,
    room_url: String,
    display_name: String,
    credentials: CoreCredentials,
    output_dir: String,
) -> (r: RecordingPlan)
    ensures
        r == planned_for(prepared, room_url, display_name, credentials, output_dir),
{
    let mut plan = RecordingPlan::new(room_url, display_name, credentials, output_dir);
    plan.live_session_id = Some(prepared.live_session_id);
    plan.session_started_at = Some(prepared.session_started_at);
    plan.next_segment_index = prepared.next_segment_index;
    plan.segment_started_at = Some(prepared.current_segment_started_at);
    plan
}

/// A recording that starts finds its room in the journal afterwards, under the name it was given and
/// alive at `now`. A broadcast that was heard of within the last ten minutes goes on as the same
/// session; otherwise a session is opened, which begins now with its first part.
pub proof fn law_room_is_prepared(
    sessions: Seq<JournalSessionModel>,
    room_url: Seq<char>,
    streamer_name: Seq<char>,
    now: i64,
    fresh: Seq<char>,
)
    requires
        rooms_distinct(sessions),
    ensures
        ({
            let after = sessions_prepared(sessions, room_url, streamer_name, now, fresh);
            exists|k: int| #![trigger after[k]]
                {
                    &&& 0 <= k < after.len()
                    &&& after[k].room_url == room_url
                    &&& after[k].streamer_name == streamer_name
                    &&& after[k].last_heartbeat_at == now
                    &&& forall|i: int|
                        0 <= i < sessions.len() && (#[trigger] sessions[i]).room_url == room_url
                            && now - sessions[i].last_heartbeat_at <= 600
                            ==> after[k].live_session_id == sessions[i].live_session_id
                            && after[k].session_started_at == sessions[i].session_started_at
                            && after[k].next_segment_index == sessions[i].next_segment_index
                            && after[k].current_segment_started_at
                            == sessions[i].current_segment_started_at
                    &&& (forall|i: int|
                        0 <= i < sessions.len() && (#[trigger] sessions[i]).room_url == room_url
                            ==> now - sessions[i].last_heartbeat_at > 600) ==> {
                        &&& after[k].live_session_id == fresh
                        &&& after[k].session_started_at == now
                        &&& after[k].next_segment_index == 1
                        &&& after[k].current_segment_started_at == now
                    }
                }
        }),
{
    let k = first_index(sessions, in_room(room_url));
    lemma_first_index_found(sessions, in_room(room_url));
    let after = sessions_prepared(sessions, room_url, streamer_name, now, fresh);
    if k < sessions.len() {
        assert forall|i: int|
            0 <= i < sessions.len() && (#[trigger] sessions[i]).room_url == room_url implies i
            == k by {
            if i < k {
                assert(sessions[i].room_url != sessions[k].room_url);
            } else if i > k {
                assert(sessions[k].room_url != sessions[i].room_url);
            }
        }
        assert(sessions[k].room_url == room_url);
        if is_resumable(sessions[k].last_heartbeat_at, now) {
            assert(after[k].room_url == room_url);
        } else {
            assert(after[after.len() - 1].room_url == room_url);
        }
    } else {
        assert(forall|i: int|
            0 <= i < sessions.len() ==> !in_room(room_url)(#[trigger] sessions[i]));
        assert(after[after.len() - 1].room_url == room_url);
    }
}

/// What a recording is started with is what the journal holds of its room: the session, its start,
/// the number of its next part (one at least) and when that part begins. A session that was given up
/// for it is handed over with the time it was last heard of.
pub proof fn law_prepared_as_in_the_journal(
    sessions: Seq<JournalSessionModel>,
    room_url: Seq<char>,
    streamer_name: Seq<char>,
    now: i64,
    fresh: Seq<char>,
    r: PreparedRecordingSession,
    i: int,
)
    requires
        is_prepared_for(sessions, room_url, now, fresh, r),
        rooms_distinct(sessions),
        0 <= i < sessions.len(),
        sessions[i].room_url == room_url,
    ensures
        now - sessions[i].last_heartbeat_at <= 600 ==> {
            &&& r.live_session_id@ == sessions[i].live_session_id
            &&& r.session_started_at == sessions[i].session_started_at
            &&& r.next_segment_index >= 1
            &&& sessions[i].next_segment_index >= 1 ==> r.next_segment_index
                == sessions[i].next_segment_index
            &&& r.current_segment_started_at == sessions[i].current_segment_started_at
            &&& r.stale_session is None
        },
        now - sessions[i].last_heartbeat_at > 600 ==> {
            &&& r.live_session_id@ == fresh
            &&& r.session_started_at == now && r.current_segment_started_at == now
            &&& r.next_segment_index == 1
            &&& r.stale_session matches Some((id, at)) && id@ == sessions[i].live_session_id && at
                == sessions[i].last_heartbeat_at
        },
{
    let k = first_index(sessions, in_room(room_url));
    lemma_first_index_found(sessions, in_room(room_url));
    assert(in_room(room_url)(sessions[i]));
    if k < i {
        assert(sessions[k].room_url != sessions[i].room_url);
    }
}

/// Whatever is noted of a room leaves the other rooms as they were.
pub proof fn law_other_rooms_untouched(
    sessions: Seq<JournalSessionModel>,
    room_url: Seq<char>,
    streamer_name: Seq<char>,
    now: i64,
    fresh: Seq<char>,
    segment: RecordingSegment,
    other: JournalSessionModel,
)
    requires
        other.room_url != room_url,
    ensures
        sessions.contains(other) ==> sessions_prepared(
            sessions,
            room_url,
            streamer_name,
            now,
            fresh,
        ).contains(other) && sessions_alive(sessions, room_url, now).contains(other)
            && sessions_advanced(sessions, room_url, segment, now).contains(other),
{
    if sessions.contains(other) {
        let i = sessions.index_of(other);
        let k = first_index(sessions, in_room(room_url));
        lemma_first_index_found(sessions, in_room(room_url));
        let prepared = sessions_prepared(sessions, room_url, streamer_name, now, fresh);
        if k < sessions.len() && !is_resumable(sessions[k].last_heartbeat_at, now) {
            assert(prepared[if i < k { i } else { i - 1 }] == other);
        } else {
            assert(prepared[i] == other);
        }
        assert(sessions_alive(sessions, room_url, now)[i] == other);
        assert(sessions_advanced(sessions, room_url, segment, now)[i] == other);
    }
}

/// A sign of life is noted for the room it came from, and moves nothing else.
pub proof fn law_sign_of_life(
    sessions: Seq<JournalSessionModel>,
    room_url: Seq<char>,
    now: i64,
    k: int,
)
    requires
        rooms_distinct(sessions),
        0 <= k < sessions.len(),
        sessions[k].room_url == room_url,
    ensures
        sessions_alive(sessions, room_url, now).len() == sessions.len(),
        sessions_alive(sessions, room_url, now)[k] == (JournalSessionModel {
            last_heartbeat_at: now,
            ..sessions[k]
        }),
        is_resumable(now, now),
        resumes(sessions_alive(sessions, room_url, now), room_url, now),
{
    let p = in_room(room_url);
    assert forall|i: int| 0 <= i < k implies !p(#[trigger] sessions[i]) by {
        assert(sessions[i].room_url != sessions[k].room_url);
    }
    lemma_first_index(sessions, p, k);
    let after = sessions_alive(sessions, room_url, now);
    assert forall|i: int| 0 <= i < k implies !p(#[trigger] after[i]) by {
        assert(after[i] == sessions[i]);
    }
    lemma_first_index(after, p, k);
}

/// A part that was cut off moves its room on: the next part has a higher number and begins where it
/// ended, in the same session.
pub proof fn law_room_moves_on(
    sessions: Seq<JournalSessionModel>,
    room_url: Seq<char>,
    segment: RecordingSegment,
    heartbeat: i64,
    k: int,
)
    requires
        rooms_distinct(sessions),
        0 <= k < sessions.len(),
        sessions[k].room_url == room_url,
        segment.segment_index < u32::MAX,
    ensures
        ({
            let after = sessions_advanced(sessions, room_url, segment, heartbeat)[k];
            &&& after == (JournalSessionModel {
                next_segment_index: after.next_segment_index,
                current_segment_started_at: segment.ended_at,
                last_heartbeat_at: heartbeat,
                ..sessions[k]
            })
            &&& after.next_segment_index > segment.segment_index
            &&& after.next_segment_index == sessions[k].next_segment_index
                || after.next_segment_index == segment.segment_index + 1
            &&& after.next_segment_index >= sessions[k].next_segment_index
        }),
{
    let p = in_room(room_url);
    assert forall|i: int| 0 <= i < k implies !p(#[trigger] sessions[i]) by {
        assert(sessions[i].room_url != sessions[k].room_url);
    }
    lemma_first_index(sessions, p, k);
}

/// A broadcast is the same one for ten minutes after it was last heard of, and not longer.
pub proof fn law_session_outlives_a_short_break(heartbeat: i64, now: i64)
    ensures
        is_resumable(heartbeat, now) <==> now <= heartbeat + 600,
{
}

/// A part that waits for its hand-over is kept as it is, with all that waited before; they stand in
/// the order of their sessions and numbers.
pub proof fn law_registered_part_is_kept(
    pending: Seq<RecordingSegment>,
    segment: RecordingSegment,
    other: RecordingSegment,
)
    requires
        !is_pending(pending, segment.live_session_id@, segment.segment_index),
    ensures
        pending_with(pending, segment).contains(segment),
        pending.contains(other) ==> pending_with(pending, segment).contains(other),
        pending_with(pending, segment).len() == pending.len() + 1,
        is_ordered(pending_with(pending, segment)),
{
    let all = pending.push(segment);
    law_ordered(all);
    all.to_multiset_ensures();
    ordered(all).to_multiset_ensures();
    assert(all[pending.len() as int] == segment);
    assert(all.contains(segment));
    assert(ordered(all).to_multiset().count(segment) > 0);
    if pending.contains(other) {
        assert(all[pending.index_of(other)] == other);
        assert(all.contains(other));
        assert(ordered(all).to_multiset().count(other) > 0);
    }
}

/// A recovered session goes on behind the recovered part and never falls back.
pub proof fn law_recovered_session_goes_on(
    session: JournalSessionModel,
    next_segment_index: u32,
    next_started_at: i64,
)
    ensures
        ({
            let after = advanced_to(session, next_segment_index, next_started_at);
            &&& after.next_segment_index >= next_segment_index
            &&& after.next_segment_index >= session.next_segment_index
            &&& after.next_segment_index == next_segment_index || after.next_segment_index
                == session.next_segment_index
            &&& after.current_segment_started_at == next_started_at
            &&& after == (JournalSessionModel {
                next_segment_index: after.next_segment_index,
                current_segment_started_at: next_started_at,
                ..session
            })
        }),
{
}

/// A recording goes on with the session, the times and the number that the journal prepared.
pub proof fn law_recording_goes_on_as_prepared(
    prepared: PreparedRecordingSession,
    room_url: String,
    display_name: String,
    credentials: CoreCredentials,
    output_dir: String,
)
    ensures
        ({
            let plan = planned_for(prepared, room_url, display_name, credentials, output_dir);
            &&& plan.live_session_id == Some(prepared.live_session_id)
            &&& plan.session_started_at == Some(prepared.session_started_at)
            &&& plan.segment_started_at == Some(prepared.current_segment_started_at)
            &&& plan.next_segment_index == prepared.next_segment_index
            &&& plan.room_url == room_url && plan.display_name == display_name
            &&& plan.credentials == credentials && plan.output_dir == output_dir
            &&& plan.segment_target_bytes == 14_900_000_000
        }),
{
}

/// A session is found by its identifier, or by its room, and no other is.
pub proof fn law_sessions_are_found(session: JournalSessionModel, id: Seq<char>, room_url: Seq<char>)
    ensures
        has_session_id(id)(session) <==> session.live_session_id == id,
        in_room(room_url)(session) <==> session.room_url == room_url,
{
}

} // verus!
