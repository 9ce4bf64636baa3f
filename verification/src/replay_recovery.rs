//! What is done with the rows of the replay database when the program starts: sessions that a
//! crash left open are closed, interrupted uploads are queued again, and a submission that may
//! have been sent is marked as uncertain instead of being sent again.

use crate::lists::{ordered, stable_sort, Ranked};
use crate::replay_queue::is_due_part;
use crate::replay_rows::{is_terminal, segment_is_terminal, JobRow, SegmentRow, SessionRow};
use crate::statuses::{JobStatus, SegmentStatus, SessionStatus, SubmitState};
use crate::text::opt_text;
use vstd::prelude::*;

verus! {

/// The rows of the replay database.
#[derive(Debug)]
pub struct ReplayDatabase {
    pub sessions: Vec<SessionRow>,
    pub segments: Vec<SegmentRow>,
    pub jobs: Vec<JobRow>,
}

/// A session that a crash left open: it has not ended, and nothing happened in it since the
/// program started at `cutoff`.
pub open spec fn is_stale(session: SessionRow, cutoff: i64) -> bool {
    session.ended_at is None && session.last_activity_at < cutoff
}

/// A session after it has been closed, if it was left open.
pub open spec fn closed(session: SessionRow, cutoff: i64, now: i64) -> SessionRow {
    if is_stale(session, cutoff) {
        SessionRow {
            ended_at: Some(now),
            status: if session.status == SessionStatus::SubmissionUncertain || session.status
                == SessionStatus::Conflict {
                session.status
            } else if session.expected_parts == session.verified_parts {
                SessionStatus::Complete
            } else {
                SessionStatus::RecordingComplete
            },
            ..session
        }
    } else {
        session
    }
}

/// A closed session whose first submission was being sent.
pub open spec fn is_interrupted(session: SessionRow) -> bool {
    session.ended_at is Some && session.aid is None && session.submit_state
        == SubmitState::Submitting
}

/// Some session with the identifier `id` has ended.
pub open spec fn has_ended(sessions: Seq<SessionRow>, id: i64) -> bool {
    exists|i: int|
        0 <= i < sessions.len() && (#[trigger] sessions[i]).id == id && sessions[i].ended_at is Some
}

/// Some session with the identifier `id` was interrupted while its submission was being sent.
pub open spec fn was_interrupted(sessions: Seq<SessionRow>, id: i64) -> bool {
    exists|i: int|
        0 <= i < sessions.len() && (#[trigger] sessions[i]).id == id && is_interrupted(sessions[i])
}

/// The first of two messages that is there.
pub open spec fn kept_or(message: Option<Seq<char>>, other: Seq<char>) -> Option<Seq<char>> {
    match message {
        Some(m) => Some(m),
        None => Some(other),
    }
}

/// What becomes of a part, given the sessions after the stale ones were closed.
pub open spec fn is_recovered_segment(
    before: SegmentRow,
    after: SegmentRow,
    sessions: Seq<SessionRow>,
) -> bool {
    if before.status == SegmentStatus::Uploading && has_ended(sessions, before.session_id) {
        after == (SegmentRow {
            status: if before.remote_filename is Some {
                SegmentStatus::UploadedToStorage
            } else {
                SegmentStatus::Queued
            },
            next_retry_at: None,
            ..before
        })
    } else if before.status == SegmentStatus::Submitting && was_interrupted(
        sessions,
        before.session_id,
    ) {
        &&& after == (SegmentRow {
            status: SegmentStatus::SubmissionUncertain,
            last_error: after.last_error,
            ..before
        })
        &&& opt_text(after.last_error) == kept_or(
            opt_text(before.last_error),
            "首个投稿在程序退出时处于提交中；已暂停自动重投"@,
        )
    } else {
        after == before
    }
}

/// The part of a job belongs to a session that has ended.
pub open spec fn part_has_ended(
    segment_id: i64,
    segments: Seq<SegmentRow>,
    sessions: Seq<SessionRow>,
) -> bool {
    exists|i: int|
        0 <= i < segments.len() && (#[trigger] segments[i]).id == segment_id && has_ended(
            sessions,
            segments[i].session_id,
        )
}

/// The part of a job is uncertain, in a session that has ended.
pub open spec fn part_is_uncertain(
    segment_id: i64,
    segments: Seq<SegmentRow>,
    sessions: Seq<SessionRow>,
) -> bool {
    exists|i: int|
        0 <= i < segments.len() && (#[trigger] segments[i]).id == segment_id && segments[i].status
            == SegmentStatus::SubmissionUncertain && has_ended(sessions, segments[i].session_id)
}

/// A job after an interrupted upload has been queued again.
pub open spec fn requeued_job(
    job: JobRow,
    segments: Seq<SegmentRow>,
    sessions: Seq<SessionRow>,
) -> JobRow {
    if job.status == JobStatus::Uploading && part_has_ended(job.segment_id, segments, sessions) {
        JobRow { status: JobStatus::Queued, next_attempt_at: None, locked_at: None, ..job }
    } else {
        job
    }
}

/// What becomes of a job, given the parts and the sessions.
pub open spec fn is_recovered_job(
    before: JobRow,
    after: JobRow,
    segments: Seq<SegmentRow>,
    sessions: Seq<SessionRow>,
) -> bool {
    let queued = requeued_job(before, segments, sessions);
    if part_is_uncertain(before.segment_id, segments, sessions) {
        &&& after == (JobRow {
            status: JobStatus::SubmissionUncertain,
            locked_at: None,
            last_error: after.last_error,
            ..queued
        })
        &&& opt_text(after.last_error) == kept_or(
            opt_text(before.last_error),
            "首个投稿结果不确定"@,
        )
    } else {
        after == queued
    }
}

/// What becomes of a session.
pub open spec fn is_recovered_session(
    before: SessionRow,
    after: SessionRow,
    cutoff: i64,
    now: i64,
) -> bool {
    let ended = closed(before, cutoff, now);
    if is_interrupted(ended) {
        &&& after == (SessionRow {
            submit_state: SubmitState::Uncertain,
            status: SessionStatus::SubmissionUncertain,
            last_error: after.last_error,
            ..ended
        })
        &&& opt_text(after.last_error) == kept_or(
            opt_text(before.last_error),
            "首个投稿结果不确定，等待绑定AID/BVID"@,
        )
    } else {
        after == ended
    }
}

/// The sessions after the stale ones have been closed.
pub open spec fn all_closed(sessions: Seq<SessionRow>, cutoff: i64, now: i64) -> Seq<SessionRow> {
    sessions.map_values(|s: SessionRow| closed(s, cutoff, now))
}

/// What becomes of the rows of the database.
pub open spec fn is_recovered(
    sessions: Seq<SessionRow>,
    segments: Seq<SegmentRow>,
    jobs: Seq<JobRow>,
    after: ReplayDatabase,
    cutoff: i64,
    now: i64,
) -> bool {
    &&& after.sessions@.len() == sessions.len()
    &&& after.segments@.len() == segments.len()
    &&& after.jobs@.len() == jobs.len()
    &&& forall|i: int|
        0 <= i < sessions.len() ==> is_recovered_session(
            sessions[i],
            #[trigger] after.sessions@[i],
            cutoff,
            now,
        )
    &&& forall|i: int|
        0 <= i < segments.len() ==> is_recovered_segment(
            segments[i],
            #[trigger] after.segments@[i],
            all_closed(sessions, cutoff, now),
        )
    &&& forall|i: int|
        0 <= i < jobs.len() ==> is_recovered_job(
            jobs[i],
            #[trigger] after.jobs@[i],
            after.segments@,
            all_closed(sessions, cutoff, now),
        )
}

fn session_has_ended(sessions: &Vec<SessionRow>, id: i64) -> (r: bool)
    ensures
        r == has_ended(sessions@, id),
{
    let mut i: usize = 0;
    while i < sessions.len()
        invariant
            i <= sessions.len(),
            forall|k: int|
                0 <= k < i ==> !((#[trigger] sessions@[k]).id == id && sessions@[k].ended_at is Some),
        decreases sessions.len() - i,
    {
        if sessions[i].id == id && sessions[i].ended_at.is_some() {
            return true;
        }
        i = i + 1;
    }
    false
}

fn session_was_interrupted(sessions: &Vec<SessionRow>, id: i64) -> (r: bool)
    ensures
        r == was_interrupted(sessions@, id),
{
    let mut i: usize = 0;
    while i < sessions.len()
        invariant
            i <= sessions.len(),
            forall|k: int|
                0 <= k < i ==> !((#[trigger] sessions@[k]).id == id && is_interrupted(sessions@[k])),
        decreases sessions.len() - i,
    {
        if sessions[i].id == id && sessions[i].ended_at.is_some() && sessions[i].aid.is_none()
            && sessions[i].submit_state == SubmitState::Submitting {
            return true;
        }
        i = i + 1;
    }
    false
}

fn job_part_has_ended(
    segment_id: i64,
    segments: &Vec<SegmentRow>,
    sessions: &Vec<SessionRow>,
) -> (r: bool)
    ensures
        r == part_has_ended(segment_id, segments@, sessions@),
{
    let mut i: usize = 0;
    while i < segments.len()
        invariant
            i <= segments.len(),
            forall|k: int|
                0 <= k < i ==> !((#[trigger] segments@[k]).id == segment_id && has_ended(
                    sessions@,
                    segments@[k].session_id,
                )),
        decreases segments.len() - i,
    {
        if segments[i].id == segment_id && session_has_ended(sessions, segments[i].session_id) {
            return true;
        }
        i = i + 1;
    }
    false
}

fn job_part_is_uncertain(
    segment_id: i64,
    segments: &Vec<SegmentRow>,
    sessions: &Vec<SessionRow>,
) -> (r: bool)
    ensures
        r == part_is_uncertain(segment_id, segments@, sessions@),
{
    let mut i: usize = 0;
    while i < segments.len()
        invariant
            i <= segments.len(),
            forall|k: int|
                0 <= k < i ==> !((#[trigger] segments@[k]).id == segment_id && segments@[k].status
                    == SegmentStatus::SubmissionUncertain && has_ended(
                    sessions@,
                    segments@[k].session_id,
                )),
        decreases segments.len() - i,
    {
        if segments[i].id == segment_id && segments[i].status == SegmentStatus::SubmissionUncertain
            && session_has_ended(sessions, segments[i].session_id) {
            return true;
        }
        i = i + 1;
    }
    false
}

fn keep_or(message: &mut Option<String>, other: &str)
    ensures
        opt_text(*final(message)) == kept_or(opt_text(*old(message)), other@),
{
    if message.is_none() {
        *message = Some(other.to_owned());
    }
}

fn recover_segment(segment: &mut SegmentRow, sessions: &Vec<SessionRow>)
    ensures
        is_recovered_segment(*old(segment), *final(segment), sessions@),
{
    if segment.status == SegmentStatus::Uploading && session_has_ended(
        sessions,
        segment.session_id,
    ) {
        segment.status = if segment.remote_filename.is_some() {
            SegmentStatus::UploadedToStorage
        } else {
            SegmentStatus::Queued
        };
        segment.next_retry_at = None;
    } else if segment.status == SegmentStatus::Submitting && session_was_interrupted(
        sessions,
        segment.session_id,
    ) {
        segment.status = SegmentStatus::SubmissionUncertain;
        keep_or(&mut segment.last_error, "首个投稿在程序退出时处于提交中；已暂停自动重投");
    }
}

fn recover_job(job: &mut JobRow, segments: &Vec<SegmentRow>, sessions: &Vec<SessionRow>)
    ensures
        is_recovered_job(*old(job), *final(job), segments@, sessions@),
{
    let id: i64 = job.segment_id;
    if job.status == JobStatus::Uploading && job_part_has_ended(id, segments, sessions) {
        job.status = JobStatus::Queued;
        job.next_attempt_at = None;
        job.locked_at = None;
    }
    if job_part_is_uncertain(id, segments, sessions) {
        job.status = JobStatus::SubmissionUncertain;
        job.locked_at = None;
        keep_or(&mut job.last_error, "首个投稿结果不确定");
    }
}

/// Brings the rows of the database in order when the program starts. `cutoff` is the time of the
/// start: what happened since belongs to this run of the program and is left alone.
pub fn recover_database(database: &mut ReplayDatabase, cutoff: i64, now: i64)
    ensures
        is_recovered(
            old(database).sessions@,
            old(database).segments@,
            old(database).jobs@,
            *final(database),
            cutoff,
            now,
        ),
{
    let ghost sessions = database.sessions@;
    let ghost segments = database.segments@;
    let ghost jobs = database.jobs@;
    let ghost ended = all_closed(sessions, cutoff, now);
    let mut i: usize = 0;
    while i < database.sessions.len()
        invariant
            i <= sessions.len(),
            database.sessions@.len() == sessions.len(),
            database.segments@ == segments,
            database.jobs@ == jobs,
            forall|k: int|
                0 <= k < i ==> (#[trigger] database.sessions@[k]) == closed(
                    sessions[k],
                    cutoff,
                    now,
                ),
            forall|k: int|
                i <= k < sessions.len() ==> (#[trigger] database.sessions@[k]) == sessions[k],
        decreases sessions.len() - i,
    {
        let session = &mut database.sessions[i];
        if session.ended_at.is_none() && session.last_activity_at < cutoff {
            session.ended_at = Some(now);
            if session.status != SessionStatus::SubmissionUncertain && session.status
                != SessionStatus::Conflict {
                session.status = if session.expected_parts == session.verified_parts {
                    SessionStatus::Complete
                } else {
                    SessionStatus::RecordingComplete
                };
            }
        }
        i = i + 1;
    }
    assert(database.sessions@ =~= ended);
    let mut j: usize = 0;
    while j < database.segments.len()
        invariant
            j <= segments.len(),
            database.segments@.len() == segments.len(),
            database.sessions@ == ended,
            database.jobs@ == jobs,
            forall|k: int|
                0 <= k < j ==> is_recovered_segment(
                    segments[k],
                    #[trigger] database.segments@[k],
                    ended,
                ),
            forall|k: int|
                j <= k < segments.len() ==> (#[trigger] database.segments@[k]) == segments[k],
        decreases segments.len() - j,
    {
        recover_segment(&mut database.segments[j], &database.sessions);
        j = j + 1;
    }
    let ghost parts = database.segments@;
    let mut k: usize = 0;
    while k < database.jobs.len()
        invariant
            k <= jobs.len(),
            database.jobs@.len() == jobs.len(),
            database.sessions@ == ended,
            database.segments@ == parts,
            forall|m: int|
                0 <= m < k ==> is_recovered_job(
                    jobs[m],
                    #[trigger] database.jobs@[m],
                    parts,
                    ended,
                ),
            forall|m: int| k <= m < jobs.len() ==> (#[trigger] database.jobs@[m]) == jobs[m],
        decreases jobs.len() - k,
    {
        recover_job(&mut database.jobs[k], &database.segments, &database.sessions);
        k = k + 1;
    }
    let mut n: usize = 0;
    while n < database.sessions.len()
        invariant
            n <= sessions.len(),
            ended == all_closed(sessions, cutoff, now),
            database.sessions@.len() == sessions.len(),
            database.segments@ == parts,
            database.jobs@.len() == jobs.len(),
            forall|m: int|
                0 <= m < jobs.len() ==> is_recovered_job(
                    jobs[m],
                    #[trigger] database.jobs@[m],
                    parts,
                    ended,
                ),
            forall|m: int|
                0 <= m < n ==> is_recovered_session(
                    sessions[m],
                    #[trigger] database.sessions@[m],
                    cutoff,
                    now,
                ),
            forall|m: int|
                n <= m < sessions.len() ==> (#[trigger] database.sessions@[m]) == closed(
                    sessions[m],
                    cutoff,
                    now,
                ),
        decreases sessions.len() - n,
    {
        let session = &mut database.sessions[n];
        if session.ended_at.is_some() && session.aid.is_none() && session.submit_state
            == SubmitState::Submitting {
            session.submit_state = SubmitState::Uncertain;
            session.status = SessionStatus::SubmissionUncertain;
            keep_or(&mut session.last_error, "首个投稿结果不确定，等待绑定AID/BVID");
        }
        n = n + 1;
    }
}

/// A session that was active since the program started, and its parts, are left as they are.
pub proof fn law_active_sessions_untouched(
    sessions: Seq<SessionRow>,
    segments: Seq<SegmentRow>,
    jobs: Seq<JobRow>,
    after: ReplayDatabase,
    cutoff: i64,
    now: i64,
    i: int,
    part: int,
)
    requires
        is_recovered(sessions, segments, jobs, after, cutoff, now),
        0 <= i < sessions.len(),
        sessions[i].ended_at is None,
        sessions[i].last_activity_at >= cutoff,
        forall|a: int, b: int|
            0 <= a < b < sessions.len() ==> (#[trigger] sessions[a]).id != (
            #[trigger] sessions[b]).id,
        0 <= part < segments.len(),
        segments[part].session_id == sessions[i].id,
    ensures
        after.sessions@[i] == sessions[i],
        after.segments@[part] == segments[part],
{
    let ended = all_closed(sessions, cutoff, now);
    assert(is_recovered_session(sessions[i], after.sessions@[i], cutoff, now));
    assert(is_recovered_segment(segments[part], after.segments@[part], ended));
    assert forall|k: int| 0 <= k < ended.len() && (#[trigger] ended[k]).id
        == sessions[i].id implies ended[k].ended_at is None by {
        assert(ended[k] == closed(sessions[k], cutoff, now));
        assert(sessions[k].id == sessions[i].id);
        assert(k == i);
    }
}

/// After the recovery no closed session counts as one whose first submission is being sent: the
/// queue does not send it again, but waits for somebody to look.
pub proof fn law_interrupted_submission_not_repeated(
    sessions: Seq<SessionRow>,
    segments: Seq<SegmentRow>,
    jobs: Seq<JobRow>,
    after: ReplayDatabase,
    cutoff: i64,
    now: i64,
    i: int,
)
    requires
        is_recovered(sessions, segments, jobs, after, cutoff, now),
        0 <= i < sessions.len(),
    ensures
        !is_interrupted(after.sessions@[i]),
        is_interrupted(closed(sessions[i], cutoff, now)) ==> after.sessions@[i].submit_state
            == SubmitState::Uncertain && after.sessions@[i].status
            == SessionStatus::SubmissionUncertain,
{
    assert(is_recovered_session(sessions[i], after.sessions@[i], cutoff, now));
}

/// After the recovery no session is left open that was open when the program started and had no
/// activity since.
pub proof fn law_stale_sessions_closed(
    sessions: Seq<SessionRow>,
    segments: Seq<SegmentRow>,
    jobs: Seq<JobRow>,
    after: ReplayDatabase,
    cutoff: i64,
    now: i64,
    i: int,
)
    requires
        is_recovered(sessions, segments, jobs, after, cutoff, now),
        0 <= i < sessions.len(),
    ensures
        !is_stale(after.sessions@[i], cutoff),
{
    assert(is_recovered_session(sessions[i], after.sessions@[i], cutoff, now));
}

/// No part of a session that has ended counts as being uploaded after the recovery.
pub proof fn law_interrupted_uploads_queued(
    sessions: Seq<SessionRow>,
    segments: Seq<SegmentRow>,
    jobs: Seq<JobRow>,
    after: ReplayDatabase,
    cutoff: i64,
    now: i64,
    part: int,
)
    requires
        is_recovered(sessions, segments, jobs, after, cutoff, now),
        0 <= part < segments.len(),
        has_ended(all_closed(sessions, cutoff, now), segments[part].session_id),
    ensures
        after.segments@[part].status != SegmentStatus::Uploading,
        after.segments@[part].remote_filename == segments[part].remote_filename,
{
    assert(is_recovered_segment(
        segments[part],
        after.segments@[part],
        all_closed(sessions, cutoff, now),
    ));
}

/// A session whose queue is to be run again.
#[derive(Clone, Copy, Debug, PartialEq, Eq, Structural)]
pub struct PendingSession {
    pub id: i64,
}

impl Ranked for PendingSession {
    open spec fn ranks_before(self, other: Self) -> bool {
        self.id <= other.id
    }

    fn not_after(&self, other: &Self) -> (r: bool) {
        self.id <= other.id
    }

    proof fn total(a: Self, b: Self) {
    }

    proof fn transitive(a: Self, b: Self, c: Self) {
    }
}

/// Some part of the session `id` is not done.
pub open spec fn has_pending(segments: Seq<SegmentRow>, id: i64) -> bool {
    exists|i: int|
        0 <= i < segments.len() && (#[trigger] segments[i]).session_id == id && !is_terminal(
            segments[i].status,
        )
}

fn session_has_pending(segments: &Vec<SegmentRow>, id: i64) -> (r: bool)
    ensures
        r == has_pending(segments@, id),
{
    let mut i: usize = 0;
    while i < segments.len()
        invariant
            i <= segments.len(),
            forall|k: int|
                0 <= k < i ==> !((#[trigger] segments@[k]).session_id == id && !is_terminal(
                    segments@[k].status,
                )),
        decreases segments.len() - i,
    {
        if segments[i].session_id == id && !segment_is_terminal(&segments[i].status) {
            return true;
        }
        i = i + 1;
    }
    false
}

/// The sessions with parts that are not done, in the order of the rows.
pub open spec fn pending_in(sessions: Seq<SessionRow>, segments: Seq<SegmentRow>) -> Seq<
    PendingSession,
>
    decreases sessions.len(),
{
    if sessions.len() == 0 {
        Seq::empty()
    } else {
        let rest = pending_in(sessions.drop_last(), segments);
        if has_pending(segments, sessions.last().id) {
            rest.push(PendingSession { id: sessions.last().id })
        } else {
            rest
        }
    }
}

/// The sessions with parts that are not done, oldest first.
pub fn pending_sessions(database: &ReplayDatabase) -> (r: Vec<PendingSession>)
    ensures
        r@ == ordered(pending_in(database.sessions@, database.segments@)),
{
    let mut pending: Vec<PendingSession> = Vec::new();
    let mut i: usize = 0;
    while i < database.sessions.len()
        invariant
            i <= database.sessions.len(),
            pending@ == pending_in(database.sessions@.take(i as int), database.segments@),
        decreases database.sessions.len() - i,
    {
        proof {
            assert(database.sessions@.take(i + 1).drop_last() =~= database.sessions@.take(i as int));
        }
        if session_has_pending(&database.segments, database.sessions[i].id) {
            pending.push(PendingSession { id: database.sessions[i].id });
        }
        i = i + 1;
    }
    assert(database.sessions@.take(i as int) =~= database.sessions@);
    stable_sort(pending)
}

/// The upload configuration that a session keeps a copy of.
#[derive(Clone, Copy, Debug, PartialEq, Eq, Structural)]
pub enum Snapshot {
    /// There is no copy.
    Missing,
    /// The copy cannot be read.
    Broken,
    /// The copy was read; `noop` tells whether it uploads nothing.
    Kept { noop: bool },
}

/// What is done about a session with parts that are not done.
#[derive(Clone, Copy, Debug, PartialEq, Eq, Structural)]
pub enum ResumeDecision {
    /// The streamer is not monitored: the queue is kept.
    NoWorker,
    /// The copy of the configuration is broken: the queue is paused, since another configuration
    /// could upload to another account.
    BrokenSnapshot,
    /// There is no configuration to upload with.
    NoConfig,
    /// The configuration uploads nothing.
    UploadsNothing,
    /// The queue is run, with the copy of the configuration or with that of the streamer.
    Resume { with_snapshot: bool },
}

/// Decides what is done about a session with parts that are not done. `worker_config` is the
/// configuration of the streamer: whether it uploads nothing.
pub fn resume_decision(
    has_worker: bool,
    snapshot: Snapshot,
    worker_config: Option<bool>,
) -> (r: ResumeDecision)
    ensures
        r == if !has_worker {
            ResumeDecision::NoWorker
        } else {
            match snapshot {
                Snapshot::Broken => ResumeDecision::BrokenSnapshot,
                Snapshot::Kept { noop } => if noop {
                    ResumeDecision::UploadsNothing
                } else {
                    ResumeDecision::Resume { with_snapshot: true }
                },
                Snapshot::Missing => match worker_config {
                    None => ResumeDecision::NoConfig,
                    Some(noop) => if noop {
                        ResumeDecision::UploadsNothing
                    } else {
                        ResumeDecision::Resume { with_snapshot: false }
                    },
                },
            }
        },
{
    if !has_worker {
        return ResumeDecision::NoWorker;
    }
    match snapshot {
        Snapshot::Broken => ResumeDecision::BrokenSnapshot,
        Snapshot::Kept { noop } => if noop {
            ResumeDecision::UploadsNothing
        } else {
            ResumeDecision::Resume { with_snapshot: true }
        },
        Snapshot::Missing => match worker_config {
            None => ResumeDecision::NoConfig,
            Some(noop) => if noop {
                ResumeDecision::UploadsNothing
            } else {
                ResumeDecision::Resume { with_snapshot: false }
            },
        },
    }
}

/// Recovery changes of every row only how far it has come: which session, part and job it is, its
/// files and what the service has of it stay. A message that was there is kept.
pub proof fn law_recovery_keeps_identity(
    sessions: Seq<SessionRow>,
    segments: Seq<SegmentRow>,
    jobs: Seq<JobRow>,
    after: ReplayDatabase,
    cutoff: i64,
    now: i64,
    i: int,
    part: int,
    j: int,
)
    requires
        is_recovered(sessions, segments, jobs, after, cutoff, now),
        0 <= i < sessions.len(),
        0 <= part < segments.len(),
        0 <= j < jobs.len(),
    ensures
        after.sessions@[i] == (SessionRow {
            ended_at: after.sessions@[i].ended_at,
            status: after.sessions@[i].status,
            submit_state: after.sessions@[i].submit_state,
            last_error: after.sessions@[i].last_error,
            ..sessions[i]
        }),
        after.segments@[part] == (SegmentRow {
            status: after.segments@[part].status,
            next_retry_at: after.segments@[part].next_retry_at,
            last_error: after.segments@[part].last_error,
            ..segments[part]
        }),
        after.jobs@[j] == (JobRow {
            status: after.jobs@[j].status,
            locked_at: after.jobs@[j].locked_at,
            next_attempt_at: after.jobs@[j].next_attempt_at,
            last_error: after.jobs@[j].last_error,
            ..jobs[j]
        }),
        sessions[i].last_error matches Some(m) ==> (after.sessions@[i].last_error matches Some(n)
            && n@ == m@),
        segments[part].last_error matches Some(m) ==> (
        after.segments@[part].last_error matches Some(n) && n@ == m@),
        jobs[j].last_error matches Some(m) ==> (after.jobs@[j].last_error matches Some(n) && n@
            == m@),
{
}

/// A session that nobody heard of since the cutoff is ended at `now`, as complete where all its
/// parts are done. A session that had ended keeps its end, and one that is active has none.
pub proof fn law_forgotten_session_ends(
    sessions: Seq<SessionRow>,
    segments: Seq<SegmentRow>,
    jobs: Seq<JobRow>,
    after: ReplayDatabase,
    cutoff: i64,
    now: i64,
    i: int,
)
    requires
        is_recovered(sessions, segments, jobs, after, cutoff, now),
        0 <= i < sessions.len(),
    ensures
        ({
            let before = sessions[i];
            let row = after.sessions@[i];
            &&& before.ended_at is Some ==> row.ended_at == before.ended_at
            &&& before.ended_at is None && before.last_activity_at < cutoff ==> row.ended_at
                == Some(now)
            &&& before.ended_at is None && before.last_activity_at >= cutoff ==> row.ended_at
                is None
            &&& before.ended_at is None && before.last_activity_at < cutoff && before.submit_state
                != SubmitState::Submitting && before.status != SessionStatus::SubmissionUncertain
                && before.status != SessionStatus::Conflict ==> row.status == if before.expected_parts
                == before.verified_parts {
                SessionStatus::Complete
            } else {
                SessionStatus::RecordingComplete
            }
            &&& before.ended_at is Some && (before.aid is Some || before.submit_state
                != SubmitState::Submitting) ==> row == before
            &&& (before.status == SessionStatus::SubmissionUncertain || before.status
                == SessionStatus::Conflict) ==> row.status == before.status || row.status
                == SessionStatus::SubmissionUncertain
        }),
{
}

/// An upload that was cut off is put back where it can go on: behind the upload where the service
/// has the file, else in the queue, and without waiting. Once its turn comes the worker takes it up.
pub proof fn law_cut_off_upload_goes_on(
    sessions: Seq<SessionRow>,
    segments: Seq<SegmentRow>,
    jobs: Seq<JobRow>,
    after: ReplayDatabase,
    cutoff: i64,
    now: i64,
    i: int,
    part: int,
    session: SessionRow,
    later: i64,
)
    requires
        is_recovered(sessions, segments, jobs, after, cutoff, now),
        0 <= i < sessions.len(),
        sessions[i].ended_at is Some || sessions[i].last_activity_at < cutoff,
        0 <= part < segments.len(),
        segments[part].session_id == sessions[i].id,
        segments[part].status == SegmentStatus::Uploading,
        session.id == segments[part].session_id,
        session.next_part_to_upload == segments[part].part_number,
    ensures
        after.segments@[part].status == if segments[part].remote_filename is Some {
            SegmentStatus::UploadedToStorage
        } else {
            SegmentStatus::Queued
        },
        after.segments@[part].next_retry_at is None,
        is_due_part(session, later)(after.segments@[part]),
{
    let ended = all_closed(sessions, cutoff, now);
    assert(ended[i] == closed(sessions[i], cutoff, now));
    assert(has_ended(ended, segments[part].session_id));
}

/// Parts that were neither being uploaded nor being submitted are not touched.
pub proof fn law_resting_parts_untouched(
    sessions: Seq<SessionRow>,
    segments: Seq<SegmentRow>,
    jobs: Seq<JobRow>,
    after: ReplayDatabase,
    cutoff: i64,
    now: i64,
    part: int,
)
    requires
        is_recovered(sessions, segments, jobs, after, cutoff, now),
        0 <= part < segments.len(),
    ensures
        segments[part].status != SegmentStatus::Uploading && segments[part].status
            != SegmentStatus::Submitting ==> after.segments@[part] == segments[part],
        segments[part].status == SegmentStatus::Submitting ==> after.segments@[part]
            == segments[part] || after.segments@[part].status
            == SegmentStatus::SubmissionUncertain,
{
}

/// The first submission of a session that was cut off stops the part that was being submitted.
pub proof fn law_cut_off_submission_stops(
    sessions: Seq<SessionRow>,
    segments: Seq<SegmentRow>,
    jobs: Seq<JobRow>,
    after: ReplayDatabase,
    cutoff: i64,
    now: i64,
    i: int,
    part: int,
)
    requires
        is_recovered(sessions, segments, jobs, after, cutoff, now),
        0 <= i < sessions.len(),
        sessions[i].ended_at is Some || sessions[i].last_activity_at < cutoff,
        sessions[i].aid is None,
        sessions[i].submit_state == SubmitState::Submitting,
        0 <= part < segments.len(),
        segments[part].session_id == sessions[i].id,
        segments[part].status == SegmentStatus::Submitting,
    ensures
        after.sessions@[i].submit_state == SubmitState::Uncertain,
        after.sessions@[i].status == SessionStatus::SubmissionUncertain,
        after.sessions@[i].last_error is Some,
        after.segments@[part].status == SegmentStatus::SubmissionUncertain,
        after.segments@[part].last_error is Some,
{
    let ended = all_closed(sessions, cutoff, now);
    assert(ended[i] == closed(sessions[i], cutoff, now));
    assert(was_interrupted(ended, segments[part].session_id));
}

/// The job of a part whose upload was cut off waits to be worked on again, unless the part stopped;
/// jobs that did not run are not touched but for that.
pub proof fn law_cut_off_job_is_queued(
    sessions: Seq<SessionRow>,
    segments: Seq<SegmentRow>,
    jobs: Seq<JobRow>,
    after: ReplayDatabase,
    cutoff: i64,
    now: i64,
    i: int,
    part: int,
    j: int,
)
    requires
        is_recovered(sessions, segments, jobs, after, cutoff, now),
        0 <= i < sessions.len(),
        sessions[i].ended_at is Some || sessions[i].last_activity_at < cutoff,
        0 <= part < segments.len(),
        segments[part].session_id == sessions[i].id,
        0 <= j < jobs.len(),
        jobs[j].segment_id == segments[part].id,
    ensures
        jobs[j].status == JobStatus::Uploading ==> after.jobs@[j].locked_at is None && (
        after.jobs@[j].status == JobStatus::Queued || after.jobs@[j].status
            == JobStatus::SubmissionUncertain) && after.jobs@[j].next_attempt_at is None,
        after.segments@[part].status == SegmentStatus::SubmissionUncertain ==> after.jobs@[j].status
            == JobStatus::SubmissionUncertain && after.jobs@[j].last_error is Some,
        jobs[j].status != JobStatus::Uploading ==> after.jobs@[j] == jobs[j]
            || after.jobs@[j].status == JobStatus::SubmissionUncertain,
{
    let ended = all_closed(sessions, cutoff, now);
    assert(ended[i] == closed(sessions[i], cutoff, now));
    assert(has_ended(ended, sessions[i].id));
    assert(after.segments@[part].id == jobs[j].segment_id);
    assert(after.segments@[part].session_id == sessions[i].id);
    assert(part_has_ended(jobs[j].segment_id, after.segments@, ended));
    if after.segments@[part].status == SegmentStatus::SubmissionUncertain {
        assert(part_is_uncertain(jobs[j].segment_id, after.segments@, ended));
    }
}

/// The sessions that wait for work are those with a part that is neither deleted nor retained: all
/// of them, and no others.
pub proof fn law_waiting_sessions_are_found(
    sessions: Seq<SessionRow>,
    segments: Seq<SegmentRow>,
    waiting: PendingSession,
)
    ensures
        pending_in(sessions, segments).contains(waiting) <==> (exists|i: int, part: int|
            #![trigger sessions[i], segments[part]]
            0 <= i < sessions.len() && sessions[i].id == waiting.id && 0 <= part < segments.len()
                && segments[part].session_id == waiting.id && segments[part].status
                != SegmentStatus::Deleted && segments[part].status != SegmentStatus::Retained),
    decreases sessions.len(),
{
    let found = pending_in(sessions, segments);
    if sessions.len() > 0 {
        let rest = sessions.drop_last();
        let earlier = pending_in(rest, segments);
        let last = sessions.last();
        law_waiting_sessions_are_found(rest, segments, waiting);
        if earlier.contains(waiting) {
            assert(found[earlier.index_of(waiting)] == waiting);
            let (i, part) = choose|i: int, part: int|
                #![trigger rest[i], segments[part]]
                0 <= i < rest.len() && rest[i].id == waiting.id && 0 <= part < segments.len()
                    && segments[part].session_id == waiting.id && segments[part].status
                    != SegmentStatus::Deleted && segments[part].status != SegmentStatus::Retained;
            assert(sessions[i].id == waiting.id && segments[part].session_id == waiting.id);
        }
        if found.contains(waiting) && !earlier.contains(waiting) {
            let k = found.index_of(waiting);
            if k < earlier.len() {
                assert(earlier[k] == waiting);
            }
            assert(waiting.id == last.id && has_pending(segments, last.id));
            let part = choose|part: int|
                0 <= part < segments.len() && (#[trigger] segments[part]).session_id == last.id
                    && !is_terminal(segments[part].status);
            assert(sessions[sessions.len() - 1].id == waiting.id && segments[part].session_id
                == waiting.id);
        }
        if exists|i: int, part: int|
            #![trigger sessions[i], segments[part]]
            0 <= i < sessions.len() && sessions[i].id == waiting.id && 0 <= part < segments.len()
                && segments[part].session_id == waiting.id && segments[part].status
                != SegmentStatus::Deleted && segments[part].status != SegmentStatus::Retained {
            let (i, part) = choose|i: int, part: int|
                #![trigger sessions[i], segments[part]]
                0 <= i < sessions.len() && sessions[i].id == waiting.id && 0 <= part
                    < segments.len() && segments[part].session_id == waiting.id
                    && segments[part].status != SegmentStatus::Deleted && segments[part].status
                    != SegmentStatus::Retained;
            if i < rest.len() {
                assert(rest[i] == sessions[i] && segments[part].session_id == waiting.id);
                assert(earlier.contains(waiting));
            } else {
                assert(has_pending(segments, last.id));
                assert(found[earlier.len() as int] == waiting);
            }
        }
    }
}

} // verus!
