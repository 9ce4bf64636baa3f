//! The state of a streamer as users see it: four states, however fine the states of the recorder
//! and of the upload queue are.

use crate::clock::clamp_i64;
use crate::replay_rows::{is_terminal, needs_hand, segment_is_terminal, SegmentRow, SessionRow};
use crate::statuses::{SegmentStatus, SessionStatus, SubmitState};
use crate::text::same;
use vstd::prelude::*;

verus! {

/// The state of a streamer as users see it.
#[derive(Clone, Copy, Debug, PartialEq, Eq, Structural)]
pub enum ReplayUserState {
    Waiting,
    Recording,
    Uploading,
    Error,
}

/// What goes on in the upload queue for a streamer.
#[derive(Clone, Copy, Debug, PartialEq, Eq, Structural)]
pub struct ReplayActivity {
    /// Number of parts that are not done.
    pub pending_upload_parts: i64,
    /// Something waits for somebody to look at it.
    pub needs_attention: bool,
}

impl Default for ReplayActivity {
    fn default() -> (r: Self)
        ensures
            r.pending_upload_parts == 0,
            !r.needs_attention,
    {
        ReplayActivity { pending_upload_parts: 0, needs_attention: false }
    }
}

/// The session `id` belongs to a streamer.
pub open spec fn belongs_to(sessions: Seq<SessionRow>, id: i64, live_streamer_id: i64) -> bool {
    exists|i: int|
        0 <= i < sessions.len() && (#[trigger] sessions[i]).id == id
            && sessions[i].live_streamer_id == live_streamer_id
}

/// Number of parts of a streamer that are not done.
pub open spec fn pending_count(
    sessions: Seq<SessionRow>,
    segments: Seq<SegmentRow>,
    live_streamer_id: i64,
) -> nat
    decreases segments.len(),
{
    if segments.len() == 0 {
        0
    } else {
        let rest = pending_count(sessions, segments.drop_last(), live_streamer_id);
        if belongs_to(sessions, segments.last().session_id, live_streamer_id) && !is_terminal(
            segments.last().status,
        ) {
            rest + 1
        } else {
            rest
        }
    }
}

/// Some part of a streamer waits for somebody to look at it.
pub open spec fn part_needs_hand(
    sessions: Seq<SessionRow>,
    segments: Seq<SegmentRow>,
    live_streamer_id: i64,
) -> bool {
    exists|i: int|
        0 <= i < segments.len() && needs_hand((#[trigger] segments[i]).status) && belongs_to(
            sessions,
            segments[i].session_id,
            live_streamer_id,
        )
}

/// True for the states of a session that wait for somebody to look at them.
pub open spec fn session_needs_hand(status: SessionStatus) -> bool {
    status == SessionStatus::Conflict || status == SessionStatus::SubmissionUncertain
}

/// Some session of a streamer waits for somebody to look at it.
pub open spec fn some_session_needs_hand(
    sessions: Seq<SessionRow>,
    live_streamer_id: i64,
    uncertain_counts: bool,
) -> bool {
    exists|i: int|
        0 <= i < sessions.len() && (#[trigger] sessions[i]).live_streamer_id == live_streamer_id
            && (session_needs_hand(sessions[i].status) || (uncertain_counts
            && sessions[i].submit_state == SubmitState::Uncertain))
}

fn session_belongs_to(sessions: &Vec<SessionRow>, id: i64, live_streamer_id: i64) -> (r: bool)
    ensures
        r == belongs_to(sessions@, id, live_streamer_id),
{
    let mut i: usize = 0;
    while i < sessions.len()
        invariant
            i <= sessions.len(),
            forall|k: int|
                0 <= k < i ==> !((#[trigger] sessions@[k]).id == id && sessions@[k].live_streamer_id
                    == live_streamer_id),
        decreases sessions.len() - i,
    {
        if sessions[i].id == id && sessions[i].live_streamer_id == live_streamer_id {
            return true;
        }
        i = i + 1;
    }
    false
}

/// Counts the parts of a streamer that are not done.
pub fn count_pending_parts(
    sessions: &Vec<SessionRow>,
    segments: &Vec<SegmentRow>,
    live_streamer_id: i64,
) -> (r: i64)
    ensures
        r == clamp_i64(pending_count(sessions@, segments@, live_streamer_id) as int),
{
    let mut count: usize = 0;
    let mut i: usize = 0;
    while i < segments.len()
        invariant
            i <= segments.len(),
            count <= i,
            count == pending_count(sessions@, segments@.take(i as int), live_streamer_id),
        decreases segments.len() - i,
    {
        proof {
            assert(segments@.take(i + 1).drop_last() =~= segments@.take(i as int));
        }
        let mine = session_belongs_to(sessions, segments[i].session_id, live_streamer_id);
        if mine && !segment_is_terminal(&segments[i].status) {
            count = count + 1;
        }
        i = i + 1;
    }
    assert(segments@.take(i as int) =~= segments@);
    if count as u64 > i64::MAX as u64 {
        i64::MAX
    } else {
        count as i64
    }
}

fn any_part_needs_hand(
    sessions: &Vec<SessionRow>,
    segments: &Vec<SegmentRow>,
    live_streamer_id: i64,
) -> (r: bool)
    ensures
        r == part_needs_hand(sessions@, segments@, live_streamer_id),
{
    let mut i: usize = 0;
    while i < segments.len()
        invariant
            i <= segments.len(),
            forall|k: int|
                0 <= k < i ==> !(needs_hand((#[trigger] segments@[k]).status) && belongs_to(
                    sessions@,
                    segments@[k].session_id,
                    live_streamer_id,
                )),
        decreases segments.len() - i,
    {
        let waits = segments[i].status == SegmentStatus::Conflict || segments[i].status
            == SegmentStatus::SubmissionUncertain;
        if waits && session_belongs_to(sessions, segments[i].session_id, live_streamer_id) {
            return true;
        }
        i = i + 1;
    }
    false
}

fn any_session_needs_hand(
    sessions: &Vec<SessionRow>,
    live_streamer_id: i64,
    uncertain_counts: bool,
) -> (r: bool)
    ensures
        r == some_session_needs_hand(sessions@, live_streamer_id, uncertain_counts),
{
    let mut i: usize = 0;
    while i < sessions.len()
        invariant
            i <= sessions.len(),
            forall|k: int|
                0 <= k < i ==> !((#[trigger] sessions@[k]).live_streamer_id == live_streamer_id && (
                session_needs_hand(sessions@[k].status) || (uncertain_counts
                    && sessions@[k].submit_state == SubmitState::Uncertain))),
        decreases sessions.len() - i,
    {
        let waits = sessions[i].status == SessionStatus::Conflict || sessions[i].status
            == SessionStatus::SubmissionUncertain || (uncertain_counts
            && sessions[i].submit_state == SubmitState::Uncertain);
        if sessions[i].live_streamer_id == live_streamer_id && waits {
            return true;
        }
        i = i + 1;
    }
    false
}

/// Sums up what goes on in the upload queue for a streamer.
pub fn activity_for_streamer(
    sessions: &Vec<SessionRow>,
    segments: &Vec<SegmentRow>,
    live_streamer_id: i64,
) -> (r: ReplayActivity)
    ensures
        r.pending_upload_parts == clamp_i64(
            pending_count(sessions@, segments@, live_streamer_id) as int,
        ),
        r.needs_attention == (part_needs_hand(sessions@, segments@, live_streamer_id)
            || some_session_needs_hand(sessions@, live_streamer_id, false)),
{
    ReplayActivity {
        pending_upload_parts: count_pending_parts(sessions, segments, live_streamer_id),
        needs_attention: any_part_needs_hand(sessions, segments, live_streamer_id)
            || any_session_needs_hand(sessions, live_streamer_id, false),
    }
}

/// The state of a streamer as users see it. What needs somebody to look at it comes first, then
/// recording, then parts that are not done.
pub open spec fn user_state_of(
    enabled: bool,
    working: bool,
    activity: ReplayActivity,
) -> ReplayUserState {
    if activity.needs_attention {
        ReplayUserState::Error
    } else if enabled && working {
        ReplayUserState::Recording
    } else if activity.pending_upload_parts > 0 {
        ReplayUserState::Uploading
    } else {
        ReplayUserState::Waiting
    }
}

/// The state of a streamer as users see it.
pub fn user_state(enabled: bool, worker_status: &str, activity: ReplayActivity) -> (r:
    ReplayUserState)
    ensures
        r == user_state_of(enabled, worker_status@ == "Working"@, activity),
{
    if activity.needs_attention {
        ReplayUserState::Error
    } else if enabled && same(worker_status, "Working") {
        ReplayUserState::Recording
    } else if activity.pending_upload_parts > 0 {
        ReplayUserState::Uploading
    } else {
        ReplayUserState::Waiting
    }
}

/// A streamer.
#[derive(Debug)]
pub struct StreamerRow {
    pub id: i64,
    pub name: String,
    pub url: String,
    pub enabled: bool,
}

/// What the recorder of a streamer reports.
#[derive(Clone, Copy, Debug, PartialEq, Eq, Structural)]
pub struct RecorderReport {
    pub recording: bool,
    pub elapsed_seconds: Option<u64>,
    pub local_bytes: Option<u64>,
}

/// A streamer with its state.
#[derive(Debug)]
pub struct ReplayStreamerStateResponse {
    pub id: i64,
    pub name: String,
    pub url: String,
    pub enabled: bool,
    pub user_state: ReplayUserState,
    pub pending_upload_parts: i64,
    pub active_session_id: Option<i64>,
    pub active_session_started_at: Option<String>,
    pub recording_elapsed_seconds: Option<u64>,
    pub recording_bytes: Option<u64>,
}

/// A session of a streamer that is being recorded.
pub open spec fn is_active(session: SessionRow, live_streamer_id: i64) -> bool {
    session.live_streamer_id == live_streamer_id && session.status == SessionStatus::Recording
        && session.ended_at is None
}

/// Finds the newest session of a streamer that is being recorded.
pub fn active_session(sessions: &Vec<SessionRow>, live_streamer_id: i64) -> (r: Option<i64>)
    ensures
        match r {
            Some(id) => (exists|i: int|
                0 <= i < sessions@.len() && is_active(#[trigger] sessions@[i], live_streamer_id)
                    && sessions@[i].id == id) && (forall|i: int|
                0 <= i < sessions@.len() && is_active(#[trigger] sessions@[i], live_streamer_id)
                    ==> sessions@[i].id <= id),
            None => forall|i: int|
                0 <= i < sessions@.len() ==> !is_active(#[trigger] sessions@[i], live_streamer_id),
        },
{
    let mut best: Option<i64> = None;
    let mut i: usize = 0;
    while i < sessions.len()
        invariant
            i <= sessions.len(),
            match best {
                Some(id) => (exists|k: int|
                    0 <= k < i && is_active(#[trigger] sessions@[k], live_streamer_id)
                        && sessions@[k].id == id) && (forall|k: int|
                    0 <= k < i && is_active(#[trigger] sessions@[k], live_streamer_id)
                        ==> sessions@[k].id <= id),
                None => forall|k: int|
                    0 <= k < i ==> !is_active(#[trigger] sessions@[k], live_streamer_id),
            },
        decreases sessions.len() - i,
    {
        let session = &sessions[i];
        if session.live_streamer_id == live_streamer_id && session.status
            == SessionStatus::Recording && session.ended_at.is_none() {
            assert(is_active(sessions@[i as int], live_streamer_id));
            let better = match best {
                Some(id) => session.id > id,
                None => true,
            };
            if better {
                best = Some(session.id);
            }
        }
        i = i + 1;
    }
    best
}

/// Puts together what users see of a streamer. `started_at` is the start of its active session, as
/// it is shown. What the recorder reports is shown only while it records.
pub fn streamer_state(
    streamer: StreamerRow,
    sessions: &Vec<SessionRow>,
    segments: &Vec<SegmentRow>,
    report: Option<RecorderReport>,
    started_at: Option<String>,
) -> (r: ReplayStreamerStateResponse)
    ensures
        r.id == streamer.id,
        r.name == streamer.name,
        r.url == streamer.url,
        r.enabled == streamer.enabled,
        ({
            let recording = report matches Some(p) && p.recording;
            let pending = clamp_i64(
                pending_count(sessions@, segments@, streamer.id) as int,
            );
            &&& r.pending_upload_parts == pending
            &&& r.user_state == user_state_of(
                streamer.enabled,
                recording,
                ReplayActivity {
                    pending_upload_parts: pending,
                    needs_attention: part_needs_hand(sessions@, segments@, streamer.id)
                        || some_session_needs_hand(sessions@, streamer.id, true),
                },
            )
            &&& r.recording_elapsed_seconds == if recording {
                report->Some_0.elapsed_seconds
            } else {
                None
            }
            &&& r.recording_bytes == if recording {
                report->Some_0.local_bytes
            } else {
                None
            }
        }),
        match r.active_session_id {
            Some(id) => (exists|i: int|
                0 <= i < sessions@.len() && is_active(#[trigger] sessions@[i], streamer.id)
                    && sessions@[i].id == id) && (forall|i: int|
                0 <= i < sessions@.len() && is_active(#[trigger] sessions@[i], streamer.id)
                    ==> sessions@[i].id <= id),
            None => forall|i: int|
                0 <= i < sessions@.len() ==> !is_active(#[trigger] sessions@[i], streamer.id),
        },
        r.active_session_started_at == started_at,
{
    proof {
        reveal_strlit("Working");
        reveal_strlit("Idle");
        assert("Working"@.len() == 7);
        assert("Idle"@.len() == 4);
    }
    let activity = ReplayActivity {
        pending_upload_parts: count_pending_parts(sessions, segments, streamer.id),
        needs_attention: any_part_needs_hand(sessions, segments, streamer.id)
            || any_session_needs_hand(sessions, streamer.id, true),
    };
    let recording = match report {
        Some(report) => report.recording,
        None => false,
    };
    let status = if recording {
        "Working"
    } else {
        "Idle"
    };
    let elapsed = match report {
        Some(report) => if recording {
            report.elapsed_seconds
        } else {
            None
        },
        None => None,
    };
    let bytes = match report {
        Some(report) => if recording {
            report.local_bytes
        } else {
            None
        },
        None => None,
    };
    ReplayStreamerStateResponse {
        id: streamer.id,
        enabled: streamer.enabled,
        user_state: user_state(streamer.enabled, status, activity),
        pending_upload_parts: activity.pending_upload_parts,
        active_session_id: active_session(sessions, streamer.id),
        active_session_started_at: started_at,
        recording_elapsed_seconds: elapsed,
        recording_bytes: bytes,
        name: streamer.name,
        url: streamer.url,
    }
}

/// A streamer of which something needs somebody to look at it is shown as such, whatever else goes
/// on; one that records is shown as recording before anything that waits for its upload.
pub proof fn law_attention_comes_first(enabled: bool, working: bool, activity: ReplayActivity)
    ensures
        user_state_of(enabled, working, activity) == ReplayUserState::Error
            <==> activity.needs_attention,
        user_state_of(enabled, working, activity) == ReplayUserState::Recording
            <==> !activity.needs_attention && enabled && working,
{
}

/// The parts that wait for their upload are counted one by one, of the sessions of the streamer
/// alone, each until it is deleted or retained.
pub proof fn law_waiting_parts_are_counted(
    sessions: Seq<SessionRow>,
    segments: Seq<SegmentRow>,
    part: SegmentRow,
    live_streamer_id: i64,
)
    ensures
        ({
            let own = exists|i: int|
                0 <= i < sessions.len() && (#[trigger] sessions[i]).id == part.session_id
                    && sessions[i].live_streamer_id == live_streamer_id;
            let waits = part.status != SegmentStatus::Deleted && part.status
                != SegmentStatus::Retained;
            pending_count(sessions, segments.push(part), live_streamer_id) == pending_count(
                sessions,
                segments,
                live_streamer_id,
            ) + if own && waits {
                1int
            } else {
                0
            }
        }),
        pending_count(sessions, Seq::empty(), live_streamer_id) == 0,
{
    assert(segments.push(part).drop_last() =~= segments);
}

/// A streamer needs a hand as soon as one part or session of theirs does.
pub proof fn law_trouble_is_noticed(
    sessions: Seq<SessionRow>,
    segments: Seq<SegmentRow>,
    live_streamer_id: i64,
    i: int,
    part: int,
    uncertain_counts: bool,
)
    requires
        0 <= i < sessions.len(),
        sessions[i].live_streamer_id == live_streamer_id,
    ensures
        0 <= part < segments.len() && segments[part].session_id == sessions[i].id && (
        segments[part].status == SegmentStatus::Conflict || segments[part].status
            == SegmentStatus::SubmissionUncertain) ==> part_needs_hand(
            sessions,
            segments,
            live_streamer_id,
        ),
        sessions[i].status == SessionStatus::Conflict || sessions[i].status
            == SessionStatus::SubmissionUncertain ==> some_session_needs_hand(
            sessions,
            live_streamer_id,
            uncertain_counts,
        ),
        sessions[i].submit_state == SubmitState::Uncertain ==> some_session_needs_hand(
            sessions,
            live_streamer_id,
            true,
        ),
{
    if 0 <= part < segments.len() && segments[part].session_id == sessions[i].id && needs_hand(
        segments[part].status,
    ) {
        assert(belongs_to(sessions, segments[part].session_id, live_streamer_id));
    }
}

/// No hand is asked for where no part and no session is in trouble.
pub proof fn law_no_false_alarm(
    sessions: Seq<SessionRow>,
    segments: Seq<SegmentRow>,
    live_streamer_id: i64,
)
    requires
        forall|i: int|
            0 <= i < segments.len() ==> (#[trigger] segments[i]).status != SegmentStatus::Conflict
                && segments[i].status != SegmentStatus::SubmissionUncertain,
        forall|i: int|
            0 <= i < sessions.len() ==> (#[trigger] sessions[i]).status != SessionStatus::Conflict
                && sessions[i].status != SessionStatus::SubmissionUncertain
                && sessions[i].submit_state != SubmitState::Uncertain,
    ensures
        !part_needs_hand(sessions, segments, live_streamer_id),
        !some_session_needs_hand(sessions, live_streamer_id, true),
        !some_session_needs_hand(sessions, live_streamer_id, false),
{
}

/// Behind trouble and recording, a streamer is shown as uploading while a part waits, and else as
/// waiting.
pub proof fn law_shown_state(enabled: bool, working: bool, activity: ReplayActivity)
    requires
        !activity.needs_attention,
        !(enabled && working),
    ensures
        user_state_of(enabled, working, activity) == ReplayUserState::Uploading
            <==> activity.pending_upload_parts > 0,
        user_state_of(enabled, working, activity) == ReplayUserState::Waiting
            <==> activity.pending_upload_parts <= 0,
{
}

/// The session that is being recorded is one of the streamer's that has not ended.
pub proof fn law_active_session(session: SessionRow, live_streamer_id: i64)
    ensures
        is_active(session, live_streamer_id) <==> session.live_streamer_id == live_streamer_id
            && session.status == SessionStatus::Recording && session.ended_at is None,
{
}

} // verus!
