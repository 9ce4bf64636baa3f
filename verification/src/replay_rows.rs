//! Rows of the replay database, and the transitions that the upload queue makes on them. Each
//! transition takes the rows as they are and leaves them as they have to be written back, in one
//! transaction. Times are seconds since the Unix epoch.

use crate::clock::{clamp_i64, saturating_after, saturating_later};
use crate::statuses::{CleanupState, JobStatus, SegmentStatus, SessionStatus, SubmitState};
use vstd::prelude::*;

verus! {

/// A session.
#[derive(Debug)]
pub struct SessionRow {
    pub id: i64,
    pub live_streamer_id: i64,
    pub live_title: String,
    pub aid: Option<u64>,
    pub bvid: Option<String>,
    pub submit_state: SubmitState,
    pub status: SessionStatus,
    pub delete_after_success: bool,
    pub preserve_danmaku: bool,
    /// Highest number among the parts of the session.
    pub expected_parts: i64,
    /// Highest number among the parts that are done.
    pub verified_parts: i64,
    /// Number of the part that is uploaded next.
    pub next_part_to_upload: i64,
    pub ended_at: Option<i64>,
    pub last_activity_at: i64,
    pub last_error: Option<String>,
}

/// A part of a session.
#[derive(Debug)]
pub struct SegmentRow {
    pub id: i64,
    pub session_id: i64,
    pub part_number: i64,
    pub file_path: String,
    pub processed_file_path: Option<String>,
    pub danmaku_file_path: Option<String>,
    pub status: SegmentStatus,
    pub cleanup_state: Option<CleanupState>,
    pub uploaded_filename: Option<String>,
    pub remote_filename: Option<String>,
    pub retry_count: i64,
    pub next_retry_at: Option<i64>,
    pub last_error: Option<String>,
    pub file_size: i64,
    pub uploaded_at: Option<i64>,
    pub verified_at: Option<i64>,
    pub deleted_at: Option<i64>,
}

/// The job that uploads a part.
#[derive(Debug)]
pub struct JobRow {
    pub id: i64,
    pub segment_id: i64,
    pub status: JobStatus,
    pub attempts: i64,
    pub locked_at: Option<i64>,
    pub next_attempt_at: Option<i64>,
    pub last_error: Option<String>,
}

/// True for the states in which nothing is left to do for a part.
pub open spec fn is_terminal(status: SegmentStatus) -> bool {
    status == SegmentStatus::Deleted || status == SegmentStatus::Retained
}

/// Whether nothing is left to do for a part in this state.
pub fn segment_is_terminal(status: &SegmentStatus) -> (r: bool)
    ensures
        r == is_terminal(*status),
{
    *status == SegmentStatus::Deleted || *status == SegmentStatus::Retained
}

/// True for the states that wait for somebody to look at them.
pub open spec fn needs_hand(status: SegmentStatus) -> bool {
    status == SegmentStatus::Conflict || status == SegmentStatus::SubmissionUncertain
}

/// A count one higher, within the range of the type.
pub open spec fn counted(n: i64) -> i64 {
    clamp_i64(n + 1)
}

/// The larger of two numbers.
pub open spec fn larger(a: i64, b: i64) -> i64 {
    if a < b {
        b
    } else {
        a
    }
}

/// Notes that the upload of a part starts at `now`. A part that is verified already keeps its
/// state.
pub fn mark_uploading(segment: &mut SegmentRow, job: &mut JobRow, now: i64)
    ensures
        *final(segment) == if old(segment).status == SegmentStatus::RemoteVerified
            || old(segment).status == SegmentStatus::CleanupPending {
            *old(segment)
        } else {
            SegmentRow {
                status: SegmentStatus::Uploading,
                last_error: None,
                next_retry_at: None,
                ..*old(segment)
            }
        },
        *final(job) == (JobRow {
            status: JobStatus::Uploading,
            attempts: counted(old(job).attempts),
            locked_at: Some(now),
            last_error: None,
            next_attempt_at: None,
            ..*old(job)
        }),
{
    if segment.status != SegmentStatus::RemoteVerified && segment.status
        != SegmentStatus::CleanupPending {
        segment.status = SegmentStatus::Uploading;
        segment.last_error = None;
        segment.next_retry_at = None;
    }
    job.status = JobStatus::Uploading;
    job.attempts = saturating_later(job.attempts, 1);
    job.locked_at = Some(now);
    job.last_error = None;
    job.next_attempt_at = None;
}

/// Notes that the file of a part is on the server.
pub fn save_uploaded_file(
    segment: &mut SegmentRow,
    upload_path: String,
    remote_filename: String,
    now: i64,
)
    ensures
        *final(segment) == (SegmentRow {
            status: SegmentStatus::UploadedToStorage,
            uploaded_filename: Some(upload_path),
            remote_filename: Some(remote_filename),
            uploaded_at: Some(now),
            last_error: None,
            ..*old(segment)
        }),
{
    segment.status = SegmentStatus::UploadedToStorage;
    segment.uploaded_filename = Some(upload_path);
    segment.remote_filename = Some(remote_filename);
    segment.uploaded_at = Some(now);
    segment.last_error = None;
}

/// A part whose files were prepared for the upload.
pub open spec fn prepared_as(
    segment: SegmentRow,
    processed: String,
    danmaku: Option<String>,
) -> SegmentRow {
    SegmentRow {
        processed_file_path: Some(processed),
        danmaku_file_path: danmaku,
        ..segment
    }
}

/// Keeps the paths that the preparation of a part came to.
pub fn save_prepared_paths(
    segment: &mut SegmentRow,
    processed: String,
    danmaku: Option<String>,
)
    ensures
        *final(segment) == prepared_as(*old(segment), processed, danmaku),
{
    segment.processed_file_path = Some(processed);
    segment.danmaku_file_path = danmaku;
}

/// Notes that the submission of a session is about to be created with this part. If the answer is
/// lost, a restart finds this and creates nothing.
pub fn mark_submitting(session: &mut SessionRow, segment: &mut SegmentRow)
    ensures
        *final(session) == (SessionRow { submit_state: SubmitState::Submitting, ..*old(session) }),
        *final(segment) == (SegmentRow { status: SegmentStatus::Submitting, ..*old(segment) }),
{
    session.submit_state = SubmitState::Submitting;
    segment.status = SegmentStatus::Submitting;
}

/// Keeps the identifiers of the submission that was created.
pub fn save_remote_ids(session: &mut SessionRow, aid: u64, bvid: Option<String>)
    ensures
        *final(session) == (SessionRow {
            aid: Some(aid),
            bvid,
            submit_state: SubmitState::Created,
            last_error: None,
            ..*old(session)
        }),
{
    session.aid = Some(aid);
    session.bvid = bvid;
    session.submit_state = SubmitState::Created;
    session.last_error = None;
}

/// Stops a session because it is not known whether its submission was created.
pub fn mark_submission_uncertain(
    session: &mut SessionRow,
    segment: &mut SegmentRow,
    job: &mut JobRow,
    message: String,
)
    ensures
        *final(session) == (SessionRow {
            submit_state: SubmitState::Uncertain,
            status: SessionStatus::SubmissionUncertain,
            last_error: Some(message),
            ..*old(session)
        }),
        *final(segment) == (SegmentRow {
            status: SegmentStatus::SubmissionUncertain,
            last_error: Some(message),
            ..*old(segment)
        }),
        *final(job) == (JobRow {
            status: JobStatus::SubmissionUncertain,
            last_error: Some(message),
            ..*old(job)
        }),
{
    session.submit_state = SubmitState::Uncertain;
    session.status = SessionStatus::SubmissionUncertain;
    session.last_error = Some(message.clone());
    segment.status = SegmentStatus::SubmissionUncertain;
    segment.last_error = Some(message.clone());
    job.status = JobStatus::SubmissionUncertain;
    job.last_error = Some(message);
}

/// Stops a session because the remote part is another one than the local part.
pub fn mark_conflict(
    session: &mut SessionRow,
    segment: &mut SegmentRow,
    job: &mut JobRow,
    message: String,
)
    ensures
        *final(session) == (SessionRow {
            status: SessionStatus::Conflict,
            last_error: Some(message),
            ..*old(session)
        }),
        *final(segment) == (SegmentRow {
            status: SegmentStatus::Conflict,
            last_error: Some(message),
            ..*old(segment)
        }),
        *final(job) == (JobRow {
            status: JobStatus::Conflict,
            last_error: Some(message),
            ..*old(job)
        }),
{
    session.status = SessionStatus::Conflict;
    session.last_error = Some(message.clone());
    segment.status = SegmentStatus::Conflict;
    segment.last_error = Some(message.clone());
    job.status = JobStatus::Conflict;
    job.last_error = Some(message);
}

/// Notes that the part is in the remote submission and ready there.
pub fn mark_remote_verified(segment: &mut SegmentRow, job: &mut JobRow, now: i64)
    ensures
        *final(segment) == (SegmentRow {
            status: SegmentStatus::RemoteVerified,
            cleanup_state: Some(CleanupState::Pending),
            verified_at: Some(now),
            last_error: None,
            ..*old(segment)
        }),
        *final(job) == (JobRow {
            status: JobStatus::RemoteVerified,
            last_error: None,
            ..*old(job)
        }),
{
    segment.status = SegmentStatus::RemoteVerified;
    segment.cleanup_state = Some(CleanupState::Pending);
    segment.verified_at = Some(now);
    segment.last_error = None;
    job.status = JobStatus::RemoteVerified;
    job.last_error = None;
}

/// A part whose files are to be cleaned up.
pub open spec fn cleanup_awaited(segment: SegmentRow) -> SegmentRow {
    SegmentRow {
        status: SegmentStatus::CleanupPending,
        cleanup_state: Some(CleanupState::CleanupPending),
        ..segment
    }
}

/// Notes that the local files of a verified part are about to be deleted.
pub fn mark_cleanup_pending(segment: &mut SegmentRow)
    ensures
        *final(segment) == cleanup_awaited(*old(segment)),
{
    segment.status = SegmentStatus::CleanupPending;
    segment.cleanup_state = Some(CleanupState::CleanupPending);
}

/// What became of the local files of a part that is done.
#[derive(Clone, Copy, Debug, PartialEq, Eq, Structural)]
pub enum Terminal {
    Deleted,
    Retained,
}

/// The first of two optional times that is there.
pub open spec fn kept_or(time: Option<i64>, now: i64) -> Option<i64> {
    match time {
        Some(t) => Some(t),
        None => Some(now),
    }
}

/// A session once the part `part_number` of it is done.
pub open spec fn part_done(session: SessionRow, part_number: i64) -> SessionRow {
    SessionRow {
        verified_parts: larger(session.verified_parts, part_number),
        next_part_to_upload: if session.next_part_to_upload == part_number {
            counted(part_number)
        } else {
            session.next_part_to_upload
        },
        last_error: None,
        ..session
    }
}

/// A part that is done.
pub open spec fn terminal_segment(segment: SegmentRow, terminal: Terminal, now: i64) -> SegmentRow {
    match terminal {
        Terminal::Deleted => SegmentRow {
            status: SegmentStatus::Deleted,
            cleanup_state: Some(CleanupState::Deleted),
            deleted_at: kept_or(segment.deleted_at, now),
            last_error: None,
            ..segment
        },
        Terminal::Retained => SegmentRow {
            status: SegmentStatus::Retained,
            cleanup_state: Some(CleanupState::Retained),
            verified_at: kept_or(segment.verified_at, now),
            last_error: None,
            ..segment
        },
    }
}

/// The job of a part that is done.
pub open spec fn completed_job(job: JobRow) -> JobRow {
    JobRow { status: JobStatus::Complete, last_error: None, locked_at: None, ..job }
}

/// Finishes a part: the session goes on to the next one.
pub fn mark_terminal(
    session: &mut SessionRow,
    segment: &mut SegmentRow,
    job: &mut JobRow,
    terminal: Terminal,
    now: i64,
)
    ensures
        *final(segment) == terminal_segment(*old(segment), terminal, now),
        *final(job) == completed_job(*old(job)),
        *final(session) == part_done(*old(session), old(segment).part_number),
{
    match terminal {
        Terminal::Deleted => {
            segment.status = SegmentStatus::Deleted;
            segment.cleanup_state = Some(CleanupState::Deleted);
            if segment.deleted_at.is_none() {
                segment.deleted_at = Some(now);
            }
        },
        Terminal::Retained => {
            segment.status = SegmentStatus::Retained;
            segment.cleanup_state = Some(CleanupState::Retained);
            if segment.verified_at.is_none() {
                segment.verified_at = Some(now);
            }
        },
    }
    segment.last_error = None;
    job.status = JobStatus::Complete;
    job.last_error = None;
    job.locked_at = None;
    if session.verified_parts < segment.part_number {
        session.verified_parts = segment.part_number;
    }
    if session.next_part_to_upload == segment.part_number {
        session.next_part_to_upload = saturating_later(segment.part_number, 1);
    }
    session.last_error = None;
}

/// A part that waits for its next attempt.
pub open spec fn waiting_segment(
    segment: SegmentRow,
    attempt: i64,
    delay: u64,
    message: String,
    now: i64,
) -> SegmentRow {
    SegmentRow {
        status: SegmentStatus::RetryWait,
        retry_count: attempt,
        last_error: Some(message),
        next_retry_at: Some(clamp_i64(now + delay)),
        ..segment
    }
}

/// A job that waits for its next attempt.
pub open spec fn waiting_job(job: JobRow, delay: u64, message: String, now: i64) -> JobRow {
    JobRow {
        status: JobStatus::RetryWait,
        last_error: Some(message),
        next_attempt_at: Some(clamp_i64(now + delay)),
        locked_at: None,
        ..job
    }
}

/// A session of which a part waits for its next attempt.
pub open spec fn retrying_session(session: SessionRow, message: String) -> SessionRow {
    SessionRow {
        status: if session.ended_at is None {
            SessionStatus::Retrying
        } else {
            SessionStatus::RecordingComplete
        },
        last_error: Some(message),
        ..session
    }
}

/// Puts a part back because its upload failed; it is tried again `delay` seconds after `now`.
pub fn mark_retry(
    session: &mut SessionRow,
    segment: &mut SegmentRow,
    job: &mut JobRow,
    attempt: i64,
    delay: u64,
    message: String,
    now: i64,
)
    ensures
        *final(segment) == waiting_segment(*old(segment), attempt, delay, message, now),
        *final(job) == waiting_job(*old(job), delay, message, now),
        *final(session) == retrying_session(*old(session), message),
{
    let due: i64 = saturating_after(now, delay);
    segment.status = SegmentStatus::RetryWait;
    segment.retry_count = attempt;
    segment.last_error = Some(message.clone());
    segment.next_retry_at = Some(due);
    job.status = JobStatus::RetryWait;
    job.last_error = Some(message.clone());
    job.next_attempt_at = Some(due);
    job.locked_at = None;
    session.status = if session.ended_at.is_none() {
        SessionStatus::Retrying
    } else {
        SessionStatus::RecordingComplete
    };
    session.last_error = Some(message);
}

/// A session that is recorded on.
pub open spec fn recording_session(session: SessionRow, now: i64) -> SessionRow {
    SessionRow {
        status: SessionStatus::Recording,
        ended_at: None,
        last_activity_at: now,
        ..session
    }
}

/// Notes at `now` that a session is being recorded.
pub fn mark_session_recording(session: &mut SessionRow, now: i64)
    ensures
        *final(session) == recording_session(*old(session), now),
{
    session.status = SessionStatus::Recording;
    session.ended_at = None;
    session.last_activity_at = now;
}

/// A session that is taken up again.
pub open spec fn reopened_session(session: SessionRow, now: i64) -> SessionRow {
    SessionRow {
        status: SessionStatus::Recording,
        ended_at: None,
        last_error: None,
        last_activity_at: now,
        ..session
    }
}

/// Takes a session up again that was recorded a moment ago.
pub fn reopen_session(session: &mut SessionRow, now: i64)
    ensures
        *final(session) == reopened_session(*old(session), now),
{
    session.status = SessionStatus::Recording;
    session.ended_at = None;
    session.last_error = None;
    session.last_activity_at = now;
}

/// The state of a session whose recording is over.
pub open spec fn over(session: SessionRow) -> SessionStatus {
    if session.expected_parts == session.verified_parts {
        SessionStatus::Complete
    } else {
        SessionStatus::RecordingComplete
    }
}

/// A session whose recording is over.
pub open spec fn recorded_session(session: SessionRow, now: i64) -> SessionRow {
    SessionRow {
        status: over(session),
        ended_at: Some(now),
        last_activity_at: now,
        ..session
    }
}

/// Notes that the recording of a session ended at `now`.
pub fn mark_recording_complete(session: &mut SessionRow, now: i64)
    ensures
        *final(session) == recorded_session(*old(session), now),
{
    session.status = if session.expected_parts == session.verified_parts {
        SessionStatus::Complete
    } else {
        SessionStatus::RecordingComplete
    };
    session.ended_at = Some(now);
    session.last_activity_at = now;
}

/// A session that is done.
pub open spec fn completed_session(session: SessionRow, now: i64) -> SessionRow {
    SessionRow {
        status: SessionStatus::Complete,
        last_error: None,
        ended_at: kept_or(session.ended_at, now),
        ..session
    }
}

/// Notes that nothing is left to do for a session.
pub fn mark_session_complete(session: &mut SessionRow, now: i64)
    ensures
        *final(session) == completed_session(*old(session), now),
{
    session.status = SessionStatus::Complete;
    session.last_error = None;
    if session.ended_at.is_none() {
        session.ended_at = Some(now);
    }
}

/// Parts are done strictly in order: finishing a part moves the session on to the part right
/// behind it, and finishing any other part moves nothing.
pub proof fn law_parts_advance_in_order(session: SessionRow, part_number: i64)
    requires
        part_number < i64::MAX,
    ensures
        part_done(session, part_number).next_part_to_upload == if session.next_part_to_upload
            == part_number {
            part_number + 1
        } else {
            session.next_part_to_upload as int
        },
        part_done(session, part_number).next_part_to_upload >= session.next_part_to_upload,
        part_done(session, part_number).verified_parts >= session.verified_parts,
        part_done(session, part_number).verified_parts >= part_number,
{
}

/// What becomes of a part changes nothing of its session but how far it has come.
pub proof fn law_finished_part_is_counted(session: SessionRow, part_number: i64, other: i64)
    ensures
        ({
            let after = part_done(session, part_number);
            &&& after == (SessionRow {
                verified_parts: after.verified_parts,
                next_part_to_upload: after.next_part_to_upload,
                last_error: None,
                ..session
            })
            &&& after.verified_parts == session.verified_parts || after.verified_parts
                == part_number
            &&& part_number != session.next_part_to_upload ==> after.next_part_to_upload
                == session.next_part_to_upload
            &&& part_done(after, part_number).verified_parts == after.verified_parts
        }),
{
}

/// A session is complete once as many parts are done as it has, and only then.
pub proof fn law_complete_when_all_parts_are(session: SessionRow)
    ensures
        session.expected_parts == session.verified_parts ==> over(session)
            == SessionStatus::Complete,
        session.expected_parts != session.verified_parts ==> over(session)
            == SessionStatus::RecordingComplete,
{
}

/// A part is done once its file is deleted or retained; it waits for a hand where it is in conflict
/// or its submission is uncertain. It is never both, and a part on its way is neither.
pub proof fn law_part_states(status: SegmentStatus)
    ensures
        is_terminal(status) <==> status == SegmentStatus::Deleted || status
            == SegmentStatus::Retained,
        needs_hand(status) <==> status == SegmentStatus::Conflict || status
            == SegmentStatus::SubmissionUncertain,
        !(is_terminal(status) && needs_hand(status)),
{
}

/// A time that was noted is kept; counting goes up by one and stops at the end.
pub proof fn law_counting_and_times(n: i64, time: Option<i64>, now: i64, a: i64, b: i64)
    ensures
        n < i64::MAX ==> counted(n) == n + 1,
        counted(n) >= n,
        time is Some ==> kept_or(time, now) == time,
        kept_or(None, now) == Some(now),
        kept_or(kept_or(time, now), n) == kept_or(time, now),
        larger(a, b) >= a && larger(a, b) >= b,
        larger(a, b) == a || larger(a, b) == b,
{
}

/// A part that failed waits for its next attempt, and is taken up once the delay is over if it is its
/// turn: nothing of it is lost, and the message is told at the part, the job and the session.
pub proof fn law_waiting_part_keeps_its_place(
    session: SessionRow,
    segment: SegmentRow,
    job: JobRow,
    attempt: i64,
    delay: u64,
    message: String,
    now: i64,
)
    requires
        now + delay <= i64::MAX,
    ensures
        ({
            let after = waiting_segment(segment, attempt, delay, message, now);
            &&& after == (SegmentRow {
                status: SegmentStatus::RetryWait,
                retry_count: attempt,
                last_error: Some(message),
                next_retry_at: after.next_retry_at,
                ..segment
            })
            &&& after.next_retry_at == Some((now + delay) as i64)
            &&& !is_terminal(after.status) && !needs_hand(after.status)
        }),
        ({
            let after = waiting_job(job, delay, message, now);
            &&& after.id == job.id && after.segment_id == job.segment_id && after.attempts
                == job.attempts
            &&& after.status == JobStatus::RetryWait
            &&& after.next_attempt_at == Some((now + delay) as i64)
            &&& after.last_error == Some(message) && after.locked_at is None
        }),
        ({
            let after = retrying_session(session, message);
            &&& after == (SessionRow {
                status: after.status,
                last_error: Some(message),
                ..session
            })
            &&& session.ended_at is None ==> after.status == SessionStatus::Retrying
            &&& session.ended_at is Some ==> after.status == SessionStatus::RecordingComplete
        }),
{
}

/// A part that is done keeps what it was and when it was first done; it needs no further work.
pub proof fn law_done_part(segment: SegmentRow, job: JobRow, terminal: Terminal, now: i64)
    ensures
        ({
            let after = terminal_segment(segment, terminal, now);
            &&& is_terminal(after.status)
            &&& after.last_error is None
            &&& after == (SegmentRow {
                status: after.status,
                cleanup_state: after.cleanup_state,
                deleted_at: after.deleted_at,
                verified_at: after.verified_at,
                last_error: None,
                ..segment
            })
            &&& terminal is Deleted ==> after.status == SegmentStatus::Deleted
                && after.cleanup_state == Some(CleanupState::Deleted) && after.deleted_at is Some
                && after.verified_at == segment.verified_at
            &&& terminal is Retained ==> after.status == SegmentStatus::Retained
                && after.cleanup_state == Some(CleanupState::Retained) && after.verified_at is Some
                && after.deleted_at == segment.deleted_at
            &&& segment.deleted_at is Some ==> after.deleted_at == segment.deleted_at
            &&& segment.verified_at is Some ==> after.verified_at == segment.verified_at
            &&& terminal is Deleted && segment.deleted_at is None ==> after.deleted_at == Some(now)
        }),
        completed_job(job).status == JobStatus::Complete,
        completed_job(job) == (JobRow {
            status: JobStatus::Complete,
            last_error: None,
            locked_at: None,
            ..job
        }),
{
}

/// Preparing a part keeps its original file, and noting that its files are to go keeps all of it.
pub proof fn law_prepared_part(segment: SegmentRow, processed: String, danmaku: Option<String>)
    ensures
        ({
            let after = prepared_as(segment, processed, danmaku);
            &&& after.file_path == segment.file_path
            &&& after.processed_file_path == Some(processed)
            &&& after.danmaku_file_path == danmaku
            &&& after.status == segment.status && after.id == segment.id
            &&& after.session_id == segment.session_id && after.part_number == segment.part_number
            &&& after.remote_filename == segment.remote_filename
        }),
        ({
            let after = cleanup_awaited(segment);
            &&& after.status == SegmentStatus::CleanupPending
            &&& !is_terminal(after.status) && !needs_hand(after.status)
            &&& after == (SegmentRow {
                status: after.status,
                cleanup_state: Some(CleanupState::CleanupPending),
                ..segment
            })
        }),
{
}

/// A session that is recorded, taken up again, over or done keeps its parts and its submission.
pub proof fn law_session_goes_its_way(session: SessionRow, now: i64)
    ensures
        ({
            let after = recording_session(session, now);
            &&& after.status == SessionStatus::Recording && after.ended_at is None
            &&& after.last_activity_at == now
            &&& after == (SessionRow {
                status: after.status,
                ended_at: None,
                last_activity_at: now,
                ..session
            })
        }),
        ({
            let after = reopened_session(session, now);
            &&& after == (SessionRow { last_error: None, ..recording_session(session, now) })
            &&& after.status == SessionStatus::Recording && after.ended_at is None
        }),
        ({
            let after = recorded_session(session, now);
            &&& after.ended_at == Some(now) && after.last_activity_at == now
            &&& session.expected_parts == session.verified_parts ==> after.status
                == SessionStatus::Complete
            &&& session.expected_parts != session.verified_parts ==> after.status
                == SessionStatus::RecordingComplete
            &&& after == (SessionRow {
                status: after.status,
                ended_at: Some(now),
                last_activity_at: now,
                ..session
            })
        }),
        ({
            let after = completed_session(session, now);
            &&& after.status == SessionStatus::Complete && after.last_error is None
            &&& session.ended_at is Some ==> after.ended_at == session.ended_at
            &&& session.ended_at is None ==> after.ended_at == Some(now)
            &&& after == (SessionRow {
                status: after.status,
                last_error: None,
                ended_at: after.ended_at,
                ..session
            })
        }),
{
}

} // verus!
