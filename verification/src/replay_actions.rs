//! What users can do about the upload queue: try a part again, bind a session to a submission that
//! exists, or allow its submission to be created again.

use crate::lists::{first_index, lemma_first_index};
use crate::replay_queue::is_due_part;
use crate::replay_recovery::ReplayDatabase;
use crate::replay_rows::{JobRow, SegmentRow, SessionRow};
use crate::statuses::{JobStatus, SegmentStatus, SessionStatus, SubmitState};
use vstd::prelude::*;

verus! {

/// A request that is refused, with the status of the answer and a message.
#[derive(Debug)]
pub struct Refusal {
    pub status: u16,
    pub message: String,
}

/// A refusal with this status and this message.
pub open spec fn refuses(refusal: Refusal, status: u16, message: Seq<char>) -> bool {
    refusal.status == status && refusal.message@ == message
}

/// Refuses a request.
pub fn refuse(status: u16, message: &str) -> (r: Refusal)
    ensures
        refuses(r, status, message@),
{
    Refusal { status, message: message.to_owned() }
}

/// The submission that a session is to be bound to.
#[derive(Debug)]
pub struct BindSubmissionRequest {
    pub aid: u64,
    pub bvid: Option<String>,
}

/// A request that allows the submission of a session to be created again.
#[derive(Clone, Copy, Debug, PartialEq, Eq, Structural)]
pub struct ResetSubmissionRequest {
    pub confirm_no_remote_submission: bool,
}

/// The predicate of being the job `id`.
pub open spec fn job_with_id(id: i64) -> spec_fn(JobRow) -> bool {
    |j: JobRow| j.id == id
}

/// The predicate of being the part `id`.
pub open spec fn segment_with_id(id: i64) -> spec_fn(SegmentRow) -> bool {
    |s: SegmentRow| s.id == id
}

/// The predicate of being the session `id`.
pub open spec fn session_with_id(id: i64) -> spec_fn(SessionRow) -> bool {
    |s: SessionRow| s.id == id
}

fn find_job(jobs: &Vec<JobRow>, id: i64) -> (r: usize)
    ensures
        r == first_index(jobs@, job_with_id(id)),
        r <= jobs@.len(),
{
    let mut i: usize = 0;
    while i < jobs.len() && jobs[i].id != id
        invariant
            i <= jobs.len(),
            forall|k: int| 0 <= k < i ==> !job_with_id(id)(#[trigger] jobs@[k]),
        decreases jobs.len() - i,
    {
        i = i + 1;
    }
    proof {
        lemma_first_index(jobs@, job_with_id(id), i as int);
    }
    i
}

fn find_segment(segments: &Vec<SegmentRow>, id: i64) -> (r: usize)
    ensures
        r == first_index(segments@, segment_with_id(id)),
        r <= segments@.len(),
{
    let mut i: usize = 0;
    while i < segments.len() && segments[i].id != id
        invariant
            i <= segments.len(),
            forall|k: int| 0 <= k < i ==> !segment_with_id(id)(#[trigger] segments@[k]),
        decreases segments.len() - i,
    {
        i = i + 1;
    }
    proof {
        lemma_first_index(segments@, segment_with_id(id), i as int);
    }
    i
}

fn find_session(sessions: &Vec<SessionRow>, id: i64) -> (r: usize)
    ensures
        r == first_index(sessions@, session_with_id(id)),
        r <= sessions@.len(),
{
    let mut i: usize = 0;
    while i < sessions.len() && sessions[i].id != id
        invariant
            i <= sessions.len(),
            forall|k: int| 0 <= k < i ==> !session_with_id(id)(#[trigger] sessions@[k]),
        decreases sessions.len() - i,
    {
        i = i + 1;
    }
    proof {
        lemma_first_index(sessions@, session_with_id(id), i as int);
    }
    i
}

/// A part that is tried again at once. One that is done, or whose submission is uncertain, stays
/// as it is.
pub open spec fn retried_segment(segment: SegmentRow) -> SegmentRow {
    if segment.status == SegmentStatus::Deleted || segment.status == SegmentStatus::Retained
        || segment.status == SegmentStatus::SubmissionUncertain {
        segment
    } else {
        SegmentRow {
            status: if segment.status == SegmentStatus::Conflict {
                SegmentStatus::Queued
            } else {
                segment.status
            },
            next_retry_at: None,
            last_error: None,
            ..segment
        }
    }
}

/// A job that is tried again at once, unless it is complete.
pub open spec fn retried_job(job: JobRow) -> JobRow {
    if job.status == JobStatus::Complete {
        job
    } else {
        JobRow {
            status: if job.status == JobStatus::Conflict {
                JobStatus::Queued
            } else {
                job.status
            },
            next_attempt_at: None,
            last_error: None,
            locked_at: None,
            ..job
        }
    }
}

/// A session one of whose parts is tried again: it is no longer stopped by a conflict.
pub open spec fn retried_session(session: SessionRow) -> SessionRow {
    if session.status == SessionStatus::Conflict {
        SessionRow {
            status: if session.ended_at is None {
                SessionStatus::Recording
            } else {
                SessionStatus::RecordingComplete
            },
            last_error: None,
            ..session
        }
    } else {
        session
    }
}

/// `s` with the element at `k` changed by `f`, if there is one.
pub open spec fn changed_at<T>(s: Seq<T>, k: int, f: spec_fn(T) -> T) -> Seq<T> {
    if 0 <= k < s.len() {
        s.update(k, f(s[k]))
    } else {
        s
    }
}

/// Tries the part of a job again, without waiting any longer. Returns its session, whose worker
/// has to be woken.
pub fn retry_replay_job(database: &mut ReplayDatabase, id: i64) -> (r: Result<i64, Refusal>)
    ensures
        ({
            let before = *old(database);
            let after = *final(database);
            let job = first_index(before.jobs@, job_with_id(id));
            let segment = first_index(
                before.segments@,
                segment_with_id(before.jobs@[job].segment_id),
            );
            if job >= before.jobs@.len() || segment >= before.segments@.len() {
                &&& r matches Err(e) && refuses(e, 404, "Replay job not found"@)
                &&& after == before
            } else {
                let session_id = before.segments@[segment].session_id;
                let session = first_index(before.sessions@, session_with_id(session_id));
                &&& r == Ok::<i64, Refusal>(session_id)
                &&& after.jobs@ == before.jobs@.update(job, retried_job(before.jobs@[job]))
                &&& after.segments@ == before.segments@.update(
                    segment,
                    retried_segment(before.segments@[segment]),
                )
                &&& after.sessions@ == changed_at(
                    before.sessions@,
                    session,
                    |s: SessionRow| retried_session(s),
                )
            }
        }),
{
    let j: usize = find_job(&database.jobs, id);
    if j >= database.jobs.len() {
        return Err(refuse(404, "Replay job not found"));
    }
    let segment_id: i64 = database.jobs[j].segment_id;
    let s: usize = find_segment(&database.segments, segment_id);
    if s >= database.segments.len() {
        return Err(refuse(404, "Replay job not found"));
    }
    let session_id: i64 = database.segments[s].session_id;
    let n: usize = find_session(&database.sessions, session_id);
    retry_segment(&mut database.segments[s]);
    retry_job(&mut database.jobs[j]);
    if n < database.sessions.len() {
        retry_session(&mut database.sessions[n]);
    }
    Ok(session_id)
}

fn retry_segment(segment: &mut SegmentRow)
    ensures
        *final(segment) == retried_segment(*old(segment)),
{
    if segment.status != SegmentStatus::Deleted && segment.status != SegmentStatus::Retained
        && segment.status != SegmentStatus::SubmissionUncertain {
        if segment.status == SegmentStatus::Conflict {
            segment.status = SegmentStatus::Queued;
        }
        segment.next_retry_at = None;
        segment.last_error = None;
    }
}

fn retry_job(job: &mut JobRow)
    ensures
        *final(job) == retried_job(*old(job)),
{
    if job.status != JobStatus::Complete {
        if job.status == JobStatus::Conflict {
            job.status = JobStatus::Queued;
        }
        job.next_attempt_at = None;
        job.last_error = None;
        job.locked_at = None;
    }
}

fn retry_session(session: &mut SessionRow)
    ensures
        *final(session) == retried_session(*old(session)),
{
    if session.status == SessionStatus::Conflict {
        session.status = if session.ended_at.is_none() {
            SessionStatus::Recording
        } else {
            SessionStatus::RecordingComplete
        };
        session.last_error = None;
    }
}

/// A part after the question of its submission has been settled: it is queued again if it was
/// uncertain.
pub open spec fn settled_segment(segment: SegmentRow, session_id: i64) -> SegmentRow {
    if segment.session_id == session_id && segment.status == SegmentStatus::SubmissionUncertain {
        SegmentRow {
            status: SegmentStatus::Queued,
            last_error: None,
            next_retry_at: None,
            ..segment
        }
    } else {
        segment
    }
}

/// The part `id` belongs to a session.
pub open spec fn is_part_of(segments: Seq<SegmentRow>, id: i64, session_id: i64) -> bool {
    exists|i: int|
        0 <= i < segments.len() && (#[trigger] segments[i]).id == id && segments[i].session_id
            == session_id
}

/// A job after the question of the submission has been settled.
pub open spec fn settled_job(job: JobRow, segments: Seq<SegmentRow>, session_id: i64) -> JobRow {
    if job.status == JobStatus::SubmissionUncertain && is_part_of(
        segments,
        job.segment_id,
        session_id,
    ) {
        JobRow {
            status: JobStatus::Queued,
            last_error: None,
            next_attempt_at: None,
            locked_at: None,
            ..job
        }
    } else {
        job
    }
}

/// The parts after the question of the submission of a session has been settled.
pub open spec fn settled_segments(segments: Seq<SegmentRow>, session_id: i64) -> Seq<SegmentRow> {
    segments.map_values(|s: SegmentRow| settled_segment(s, session_id))
}

/// The jobs after the question of the submission of a session has been settled.
pub open spec fn settled_jobs(
    jobs: Seq<JobRow>,
    segments: Seq<SegmentRow>,
    session_id: i64,
) -> Seq<JobRow> {
    jobs.map_values(|j: JobRow| settled_job(j, segments, session_id))
}

fn segment_is_part_of(segments: &Vec<SegmentRow>, id: i64, session_id: i64) -> (r: bool)
    ensures
        r == is_part_of(segments@, id, session_id),
{
    let mut i: usize = 0;
    while i < segments.len()
        invariant
            i <= segments.len(),
            forall|k: int|
                0 <= k < i ==> !((#[trigger] segments@[k]).id == id && segments@[k].session_id
                    == session_id),
        decreases segments.len() - i,
    {
        if segments[i].id == id && segments[i].session_id == session_id {
            return true;
        }
        i = i + 1;
    }
    false
}

fn settle(database: &mut ReplayDatabase, session_id: i64)
    ensures
        final(database).sessions == old(database).sessions,
        final(database).segments@ == settled_segments(old(database).segments@, session_id),
        final(database).jobs@ == settled_jobs(
            old(database).jobs@,
            old(database).segments@,
            session_id,
        ),
{
    let ghost sessions = database.sessions;
    let ghost segments = database.segments@;
    let ghost jobs = database.jobs@;
    let mut j: usize = 0;
    while j < database.jobs.len()
        invariant
            j <= jobs.len(),
            database.sessions == sessions,
            database.segments@ == segments,
            database.jobs@.len() == jobs.len(),
            forall|k: int|
                0 <= k < j ==> (#[trigger] database.jobs@[k]) == settled_job(
                    jobs[k],
                    segments,
                    session_id,
                ),
            forall|k: int| j <= k < jobs.len() ==> (#[trigger] database.jobs@[k]) == jobs[k],
        decreases jobs.len() - j,
    {
        let mine = segment_is_part_of(
            &database.segments,
            database.jobs[j].segment_id,
            session_id,
        );
        let job = &mut database.jobs[j];
        if job.status == JobStatus::SubmissionUncertain && mine {
            job.status = JobStatus::Queued;
            job.last_error = None;
            job.next_attempt_at = None;
            job.locked_at = None;
        }
        j = j + 1;
    }
    assert(database.jobs@ =~= settled_jobs(jobs, segments, session_id));
    let mut i: usize = 0;
    while i < database.segments.len()
        invariant
            i <= segments.len(),
            database.sessions == sessions,
            database.jobs@ == settled_jobs(jobs, segments, session_id),
            database.segments@.len() == segments.len(),
            forall|k: int|
                0 <= k < i ==> (#[trigger] database.segments@[k]) == settled_segment(
                    segments[k],
                    session_id,
                ),
            forall|k: int|
                i <= k < segments.len() ==> (#[trigger] database.segments@[k]) == segments[k],
        decreases segments.len() - i,
    {
        let segment = &mut database.segments[i];
        if segment.session_id == session_id && segment.status
            == SegmentStatus::SubmissionUncertain {
            segment.status = SegmentStatus::Queued;
            segment.last_error = None;
            segment.next_retry_at = None;
        }
        i = i + 1;
    }
    assert(database.segments@ =~= settled_segments(segments, session_id));
}

/// A session after it was bound to the submission that a hand found for it.
pub open spec fn bound_session(session: SessionRow, payload: BindSubmissionRequest) -> SessionRow {
    SessionRow {
        aid: Some(payload.aid),
        bvid: payload.bvid,
        submit_state: SubmitState::Created,
        status: SessionStatus::RecordingComplete,
        last_error: None,
        ..session
    }
}

/// Binds a session to a submission that exists; its uncertain parts are queued again.
pub fn bind_replay_submission(
    database: &mut ReplayDatabase,
    id: i64,
    payload: BindSubmissionRequest,
) -> (r: Result<(), Refusal>)
    ensures
        ({
            let before = *old(database);
            let after = *final(database);
            let k = first_index(before.sessions@, session_with_id(id));
            if k >= before.sessions@.len() {
                &&& r matches Err(e) && refuses(e, 404, "Replay session not found"@)
                &&& after == before
            } else {
                &&& r is Ok
                &&& after.sessions@ == before.sessions@.update(
                    k,
                    bound_session(before.sessions@[k], payload),
                )
                &&& after.segments@ == settled_segments(before.segments@, id)
                &&& after.jobs@ == settled_jobs(before.jobs@, before.segments@, id)
            }
        }),
{
    let k: usize = find_session(&database.sessions, id);
    if k >= database.sessions.len() {
        return Err(refuse(404, "Replay session not found"));
    }
    settle(database, id);
    let session = &mut database.sessions[k];
    session.aid = Some(payload.aid);
    session.bvid = payload.bvid;
    session.submit_state = SubmitState::Created;
    session.status = SessionStatus::RecordingComplete;
    session.last_error = None;
    Ok(())
}

/// A session whose submission may be created again.
pub open spec fn reset_session(session: SessionRow) -> SessionRow {
    SessionRow {
        aid: None,
        bvid: None,
        submit_state: SubmitState::New,
        status: SessionStatus::RecordingComplete,
        last_error: None,
        ..session
    }
}

/// Allows the submission of a session to be created again. The request must confirm that the
/// service has none.
pub fn reset_replay_submission(
    database: &mut ReplayDatabase,
    id: i64,
    payload: ResetSubmissionRequest,
) -> (r: Result<(), Refusal>)
    ensures
        ({
            let before = *old(database);
            let after = *final(database);
            if !payload.confirm_no_remote_submission {
                &&& r matches Err(e) && refuses(e, 400, "必须确认B站端不存在该稿件"@)
                &&& after == before
            } else {
                &&& r is Ok
                &&& after.sessions@ == changed_at(
                    before.sessions@,
                    first_index(before.sessions@, session_with_id(id)),
                    |s: SessionRow| reset_session(s),
                )
                &&& after.segments@ == settled_segments(before.segments@, id)
                &&& after.jobs@ == settled_jobs(before.jobs@, before.segments@, id)
            }
        }),
{
    if !payload.confirm_no_remote_submission {
        return Err(refuse(400, "必须确认B站端不存在该稿件"));
    }
    let k: usize = find_session(&database.sessions, id);
    settle(database, id);
    if k < database.sessions.len() {
        let session = &mut database.sessions[k];
        session.aid = None;
        session.bvid = None;
        session.submit_state = SubmitState::New;
        session.status = SessionStatus::RecordingComplete;
        session.last_error = None;
    }
    Ok(())
}

/// Trying a part again never takes it out of an uncertain submission: only binding or resetting
/// the submission does.
pub proof fn law_retry_keeps_uncertainty(segment: SegmentRow)
    requires
        segment.status == SegmentStatus::SubmissionUncertain,
    ensures
        retried_segment(segment) == segment,
{
}

/// Once the question of its submission has been settled, no part of the session is uncertain, and
/// the parts of other sessions are as before.
pub proof fn law_settled_parts_are_queued(segments: Seq<SegmentRow>, session_id: i64, i: int)
    requires
        0 <= i < segments.len(),
    ensures
        segments[i].session_id == session_id ==> settled_segments(segments, session_id)[i].status
            != SegmentStatus::SubmissionUncertain,
        segments[i].session_id != session_id ==> settled_segments(segments, session_id)[i]
            == segments[i],
{
}

/// Asking for another try sets a part free that was in conflict or waiting, and changes nothing else
/// of it; a part that is done, or whose submission is uncertain, stays. Once its turn comes, the part
/// is taken up at once.
pub proof fn law_retried_part_comes_up(segment: SegmentRow, session: SessionRow, now: i64)
    ensures
        ({
            let after = retried_segment(segment);
            &&& after == (SegmentRow {
                status: after.status,
                next_retry_at: after.next_retry_at,
                last_error: after.last_error,
                ..segment
            })
            &&& segment.status == SegmentStatus::Deleted || segment.status
                == SegmentStatus::Retained || segment.status == SegmentStatus::SubmissionUncertain
                ==> after == segment
            &&& segment.status == SegmentStatus::Conflict ==> after.status == SegmentStatus::Queued
            &&& segment.status != SegmentStatus::Conflict ==> after.status == segment.status
            &&& segment.status != SegmentStatus::Deleted && segment.status
                != SegmentStatus::Retained && segment.status != SegmentStatus::SubmissionUncertain
                ==> after.next_retry_at is None && after.last_error is None && (session.id
                == segment.session_id && session.next_part_to_upload == segment.part_number
                ==> is_due_part(session, now)(after))
            &&& retried_segment(after) == after
        }),
{
}

/// Asking for another try sets the job of a part free as well; a job that is done stays.
pub proof fn law_retried_job(job: JobRow)
    ensures
        ({
            let after = retried_job(job);
            &&& after == (JobRow {
                status: after.status,
                next_attempt_at: after.next_attempt_at,
                last_error: after.last_error,
                locked_at: after.locked_at,
                ..job
            })
            &&& job.status == JobStatus::Complete ==> after == job
            &&& job.status == JobStatus::Conflict ==> after.status == JobStatus::Queued
            &&& job.status != JobStatus::Conflict ==> after.status == job.status
            &&& job.status != JobStatus::Complete ==> after.next_attempt_at is None
                && after.last_error is None && after.locked_at is None
        }),
{
}

/// Asking for another try takes a session out of its conflict, and leaves any other session alone.
pub proof fn law_retried_session(session: SessionRow)
    ensures
        ({
            let after = retried_session(session);
            &&& session.status != SessionStatus::Conflict ==> after == session
            &&& session.status == SessionStatus::Conflict ==> after == (SessionRow {
                status: after.status,
                last_error: None,
                ..session
            })
            &&& session.status == SessionStatus::Conflict && session.ended_at is None
                ==> after.status == SessionStatus::Recording
            &&& session.status == SessionStatus::Conflict && session.ended_at is Some
                ==> after.status == SessionStatus::RecordingComplete
        }),
{
}

/// A session that a hand bound to its submission, or of which a hand said that there is none, is no
/// longer uncertain and stays the same session.
pub proof fn law_settled_session(session: SessionRow, payload: BindSubmissionRequest)
    ensures
        ({
            let bound = bound_session(session, payload);
            &&& bound == (SessionRow {
                aid: Some(payload.aid),
                bvid: payload.bvid,
                submit_state: SubmitState::Created,
                status: bound.status,
                last_error: None,
                ..session
            })
            &&& bound.status == SessionStatus::RecordingComplete
        }),
        ({
            let reset = reset_session(session);
            &&& reset == (SessionRow {
                aid: None,
                bvid: None,
                submit_state: SubmitState::New,
                status: reset.status,
                last_error: None,
                ..session
            })
            &&& reset.status == SessionStatus::RecordingComplete
        }),
{
}

/// The uncertain parts of a settled session, and their jobs, are free to be worked on at once; all
/// else stays as it was.
pub proof fn law_settled_parts_come_up(
    segments: Seq<SegmentRow>,
    jobs: Seq<JobRow>,
    session_id: i64,
    i: int,
    j: int,
)
    requires
        0 <= i < segments.len(),
        0 <= j < jobs.len(),
    ensures
        ({
            let before = segments[i];
            let after = settled_segments(segments, session_id)[i];
            let uncertain = before.session_id == session_id && before.status
                == SegmentStatus::SubmissionUncertain;
            &&& !uncertain ==> after == before
            &&& uncertain ==> after == (SegmentRow {
                status: SegmentStatus::Queued,
                last_error: None,
                next_retry_at: None,
                ..before
            })
        }),
        ({
            let before = jobs[j];
            let after = settled_jobs(jobs, segments, session_id)[j];
            &&& before.status != JobStatus::SubmissionUncertain ==> after == before
            &&& after == before || after == (JobRow {
                status: JobStatus::Queued,
                last_error: None,
                next_attempt_at: None,
                locked_at: None,
                ..before
            })
            &&& before.status == JobStatus::SubmissionUncertain && before.segment_id
                == segments[i].id && segments[i].session_id == session_id ==> after.status
                == JobStatus::Queued
        }),
        settled_segments(segments, session_id).len() == segments.len(),
        settled_jobs(jobs, segments, session_id).len() == jobs.len(),
{
    if jobs[j].segment_id == segments[i].id && segments[i].session_id == session_id {
        assert(is_part_of(segments, jobs[j].segment_id, session_id));
    }
}

/// Changing one row leaves the others alone.
pub proof fn law_one_row_is_changed<T>(s: Seq<T>, k: int, f: spec_fn(T) -> T, i: int)
    requires
        0 <= i < s.len(),
    ensures
        changed_at(s, k, f).len() == s.len(),
        i != k ==> changed_at(s, k, f)[i] == s[i],
        i == k ==> changed_at(s, k, f)[i] == f(s[i]),
{
}

/// A refusal is answered with its status and its message.
pub proof fn law_refusals(refusal: Refusal, status: u16, message: Seq<char>)
    ensures
        refuses(refusal, status, message) <==> refusal.status == status && refusal.message@
            == message,
{
}

/// Rows are found by their identifiers.
pub proof fn law_rows_are_found(job: JobRow, segment: SegmentRow, session: SessionRow, id: i64)
    ensures
        job_with_id(id)(job) <==> job.id == id,
        segment_with_id(id)(segment) <==> segment.id == id,
        session_with_id(id)(session) <==> session.id == id,
{
}

} // verus!
