//! What users are shown of the sessions, parts and jobs of the upload queue.

use crate::lists::{law_ordered, ordered, stable_sort, Ranked};
use crate::replay_domain::{session_needs_hand, ReplayUserState};
use crate::replay_rows::{
    is_terminal, needs_hand, segment_is_terminal, JobRow, SegmentRow, SessionRow,
};
use crate::statuses::{CleanupState, JobStatus, SegmentStatus, SessionStatus, SubmitState};
use crate::text::{blank, is_blank, opt_text};
use vstd::prelude::*;

verus! {

/// Number of sessions that are shown.
pub const SHOWN_SESSIONS: usize = 200;

/// Number of jobs that are shown.
pub const SHOWN_JOBS: usize = 500;

/// A session as it is shown in full.
#[derive(Debug)]
pub struct ReplaySessionResponse {
    pub id: i64,
    pub live_streamer_id: i64,
    pub streamer_name: String,
    pub streamer_url: String,
    pub live_title: String,
    pub started_at: String,
    pub ended_at: Option<String>,
    pub status: SessionStatus,
    pub submit_state: SubmitState,
    pub aid: Option<u64>,
    pub bvid: Option<String>,
    pub expected_parts: i64,
    pub verified_parts: i64,
    pub next_part_to_upload: i64,
    pub delete_after_success: bool,
    pub preserve_danmaku: bool,
    pub last_error: Option<String>,
    pub pending_parts: i64,
}

impl Ranked for ReplaySessionResponse {
    open spec fn ranks_before(self, other: Self) -> bool {
        self.id >= other.id
    }

    fn not_after(&self, other: &Self) -> (r: bool) {
        self.id >= other.id
    }

    proof fn total(a: Self, b: Self) {
    }

    proof fn transitive(a: Self, b: Self, c: Self) {
    }
}

/// What is shown of a session besides its row: names, and times as they are written.
#[derive(Debug)]
pub struct SessionNames {
    pub streamer_name: String,
    pub streamer_url: String,
    pub started_at: String,
    pub ended_at: Option<String>,
}

/// Number of parts of a session that are not done.
pub open spec fn pending_of(segments: Seq<SegmentRow>, session_id: i64) -> nat
    decreases segments.len(),
{
    if segments.len() == 0 {
        0
    } else {
        let rest = pending_of(segments.drop_last(), session_id);
        if segments.last().session_id == session_id && !is_terminal(segments.last().status) {
            rest + 1
        } else {
            rest
        }
    }
}

/// Counts the parts of a session that are not done.
pub fn pending_parts(segments: &Vec<SegmentRow>, session_id: i64) -> (r: i64)
    ensures
        r == crate::clock::clamp_i64(pending_of(segments@, session_id) as int),
{
    let mut count: usize = 0;
    let mut i: usize = 0;
    while i < segments.len()
        invariant
            i <= segments.len(),
            count <= i,
            count == pending_of(segments@.take(i as int), session_id),
        decreases segments.len() - i,
    {
        proof {
            assert(segments@.take(i + 1).drop_last() =~= segments@.take(i as int));
        }
        if segments[i].session_id == session_id && !segment_is_terminal(&segments[i].status) {
            count = count + 1;
        }
        i = i + 1;
    }
    assert(segments@.take(i as int) =~= segments@);
    if count as u64 > i64::MAX as u64 {
        i64::MAX
    } else {
        count as i64
    }
}

/// A session as it is shown.
pub open spec fn session_shown(
    session: SessionRow,
    names: SessionNames,
    pending_parts: i64,
) -> ReplaySessionResponse {
    ReplaySessionResponse {
        id: session.id,
        live_streamer_id: session.live_streamer_id,
        streamer_name: names.streamer_name,
        streamer_url: names.streamer_url,
        live_title: session.live_title,
        started_at: names.started_at,
        ended_at: names.ended_at,
        status: session.status,
        submit_state: session.submit_state,
        aid: session.aid,
        bvid: session.bvid,
        expected_parts: session.expected_parts,
        verified_parts: session.verified_parts,
        next_part_to_upload: session.next_part_to_upload,
        delete_after_success: session.delete_after_success,
        preserve_danmaku: session.preserve_danmaku,
        last_error: session.last_error,
        pending_parts,
    }
}

/// A session as it is shown in full.
pub fn session_response(session: SessionRow, names: SessionNames, pending_parts: i64) -> (r:
    ReplaySessionResponse)
    ensures
        r == session_shown(session, names, pending_parts),
{
    ReplaySessionResponse {
        id: session.id,
        live_streamer_id: session.live_streamer_id,
        streamer_name: names.streamer_name,
        streamer_url: names.streamer_url,
        live_title: session.live_title,
        started_at: names.started_at,
        ended_at: names.ended_at,
        status: session.status,
        submit_state: session.submit_state,
        aid: session.aid,
        bvid: session.bvid,
        expected_parts: session.expected_parts,
        verified_parts: session.verified_parts,
        next_part_to_upload: session.next_part_to_upload,
        delete_after_success: session.delete_after_success,
        preserve_danmaku: session.preserve_danmaku,
        last_error: session.last_error,
        pending_parts,
    }
}

/// The first `n` elements of a list.
pub open spec fn first_of<T>(s: Seq<T>, n: nat) -> Seq<T> {
    if s.len() <= n {
        s
    } else {
        s.take(n as int)
    }
}

fn keep_first<T>(items: &mut Vec<T>, n: usize)
    ensures
        final(items)@ == first_of(old(items)@, n as nat),
{
    if items.len() > n {
        items.truncate(n);
        assert(items@ =~= old(items)@.take(n as int));
    }
}

/// The sessions that are shown: the newest ones, newest first.
pub fn get_replay_sessions(sessions: Vec<ReplaySessionResponse>) -> (r: Vec<ReplaySessionResponse>)
    ensures
        r@ == first_of(ordered(sessions@), SHOWN_SESSIONS as nat),
{
    let mut shown = stable_sort(sessions);
    keep_first(&mut shown, SHOWN_SESSIONS);
    shown
}

/// A job as it is shown in full.
#[derive(Debug)]
pub struct ReplayJobResponse {
    pub id: i64,
    pub session_id: i64,
    pub segment_id: i64,
    pub streamer_name: String,
    pub bvid: Option<String>,
    pub part_number: i64,
    pub file_path: String,
    pub original_file_path: Option<String>,
    pub processed_file_path: Option<String>,
    pub remote_filename: Option<String>,
    pub file_size: i64,
    pub segment_status: SegmentStatus,
    pub cleanup_state: Option<CleanupState>,
    pub job_status: JobStatus,
    pub attempts: i64,
    pub last_error: Option<String>,
    pub next_attempt_at: Option<i64>,
    pub uploaded_at: Option<i64>,
    pub verified_at: Option<i64>,
    pub deleted_at: Option<i64>,
}

/// True for the states of a job that are shown first.
pub open spec fn is_shown_first(status: JobStatus) -> bool {
    status == JobStatus::Queued || status == JobStatus::Uploading || status == JobStatus::RetryWait
        || status == JobStatus::RemoteVerified || status == JobStatus::SubmissionUncertain || status
        == JobStatus::Conflict
}

fn shown_first(status: &JobStatus) -> (r: bool)
    ensures
        r == is_shown_first(*status),
{
    *status == JobStatus::Queued || *status == JobStatus::Uploading || *status
        == JobStatus::RetryWait || *status == JobStatus::RemoteVerified || *status
        == JobStatus::SubmissionUncertain || *status == JobStatus::Conflict
}

impl Ranked for ReplayJobResponse {
    open spec fn ranks_before(self, other: Self) -> bool {
        if is_shown_first(self.job_status) != is_shown_first(other.job_status) {
            is_shown_first(self.job_status)
        } else if self.session_id != other.session_id {
            self.session_id > other.session_id
        } else {
            self.part_number <= other.part_number
        }
    }

    fn not_after(&self, other: &Self) -> (r: bool) {
        let first = shown_first(&self.job_status);
        let other_first = shown_first(&other.job_status);
        if first != other_first {
            first
        } else if self.session_id != other.session_id {
            self.session_id > other.session_id
        } else {
            self.part_number <= other.part_number
        }
    }

    proof fn total(a: Self, b: Self) {
    }

    proof fn transitive(a: Self, b: Self, c: Self) {
    }
}

/// The first of two values that is there.
pub open spec fn either<T>(a: Option<T>, b: Option<T>) -> Option<T> {
    match a {
        Some(x) => Some(x),
        None => b,
    }
}

fn first_given<T>(a: Option<T>, b: Option<T>) -> (r: Option<T>)
    ensures
        r == either(a, b),
{
    match a {
        Some(x) => Some(x),
        None => b,
    }
}

/// A job as it is shown, with the part it is for.
pub open spec fn job_shown(
    job: JobRow,
    segment: SegmentRow,
    streamer_name: String,
    bvid: Option<String>,
    original_file_path: Option<String>,
) -> ReplayJobResponse {
    ReplayJobResponse {
        id: job.id,
        session_id: segment.session_id,
        segment_id: segment.id,
        streamer_name,
        bvid,
        part_number: segment.part_number,
        file_path: segment.file_path,
        original_file_path,
        processed_file_path: segment.processed_file_path,
        remote_filename: segment.remote_filename,
        file_size: segment.file_size,
        segment_status: segment.status,
        cleanup_state: segment.cleanup_state,
        job_status: job.status,
        attempts: job.attempts,
        last_error: either(job.last_error, segment.last_error),
        next_attempt_at: either(job.next_attempt_at, segment.next_retry_at),
        uploaded_at: segment.uploaded_at,
        verified_at: segment.verified_at,
        deleted_at: segment.deleted_at,
    }
}

/// A job as it is shown in full.
pub fn job_response(
    job: JobRow,
    segment: SegmentRow,
    streamer_name: String,
    bvid: Option<String>,
    original_file_path: Option<String>,
) -> (r: ReplayJobResponse)
    ensures
        r == job_shown(job, segment, streamer_name, bvid, original_file_path),
{
    ReplayJobResponse {
        id: job.id,
        session_id: segment.session_id,
        segment_id: segment.id,
        streamer_name,
        bvid,
        part_number: segment.part_number,
        file_path: segment.file_path,
        original_file_path,
        processed_file_path: segment.processed_file_path,
        remote_filename: segment.remote_filename,
        file_size: segment.file_size,
        segment_status: segment.status,
        cleanup_state: segment.cleanup_state,
        job_status: job.status,
        attempts: job.attempts,
        last_error: first_given(job.last_error, segment.last_error),
        next_attempt_at: first_given(job.next_attempt_at, segment.next_retry_at),
        uploaded_at: segment.uploaded_at,
        verified_at: segment.verified_at,
        deleted_at: segment.deleted_at,
    }
}

/// The jobs that are shown: those in progress first, then by session, newest first, then by part.
pub fn get_replay_jobs(jobs: Vec<ReplayJobResponse>) -> (r: Vec<ReplayJobResponse>)
    ensures
        r@ == first_of(ordered(jobs@), SHOWN_JOBS as nat),
{
    let mut shown = stable_sort(jobs);
    keep_first(&mut shown, SHOWN_JOBS);
    shown
}

/// A session in short.
#[derive(Debug)]
pub struct ReplaySessionSummary {
    pub id: i64,
    pub streamer_name: String,
    pub live_title: String,
    pub started_at: String,
    pub ended_at: Option<String>,
    pub user_state: ReplayUserState,
    pub completed: bool,
    pub expected_parts: i64,
    pub verified_parts: i64,
    pub pending_parts: i64,
    pub bvid: Option<String>,
    pub last_error: Option<String>,
    pub requires_submission_reconciliation: bool,
}

impl Ranked for ReplaySessionSummary {
    open spec fn ranks_before(self, other: Self) -> bool {
        self.id >= other.id
    }

    fn not_after(&self, other: &Self) -> (r: bool) {
        self.id >= other.id
    }

    proof fn total(a: Self, b: Self) {
    }

    proof fn transitive(a: Self, b: Self, c: Self) {
    }
}

/// A part in short.
#[derive(Debug)]
pub struct ReplaySegmentSummary {
    pub job_id: i64,
    pub session_id: i64,
    pub streamer_name: String,
    pub part_number: i64,
    pub user_state: ReplayUserState,
    pub completed: bool,
    pub file_size: i64,
    pub attempts: i64,
    pub last_error: Option<String>,
    pub next_attempt_at: Option<i64>,
    pub can_retry: bool,
}

impl Ranked for ReplaySegmentSummary {
    open spec fn ranks_before(self, other: Self) -> bool {
        if self.completed != other.completed {
            other.completed
        } else if self.session_id != other.session_id {
            self.session_id > other.session_id
        } else {
            self.part_number <= other.part_number
        }
    }

    fn not_after(&self, other: &Self) -> (r: bool) {
        if self.completed != other.completed {
            other.completed
        } else if self.session_id != other.session_id {
            self.session_id > other.session_id
        } else {
            self.part_number <= other.part_number
        }
    }

    proof fn total(a: Self, b: Self) {
    }

    proof fn transitive(a: Self, b: Self, c: Self) {
    }
}

/// The sessions and parts of the upload queue in short.
#[derive(Debug)]
pub struct ReplayActivityResponse {
    pub sessions: Vec<ReplaySessionSummary>,
    pub segments: Vec<ReplaySegmentSummary>,
}

/// Some part of a session waits for somebody to look at it.
pub open spec fn some_part_needs_hand(segments: Seq<SegmentRow>, session_id: i64) -> bool {
    exists|i: int|
        0 <= i < segments.len() && (#[trigger] segments[i]).session_id == session_id && needs_hand(
            segments[i].status,
        )
}

/// A session waits for somebody to look at it.
pub open spec fn wants_attention(session: SessionRow, segments: Seq<SegmentRow>) -> bool {
    some_part_needs_hand(segments, session.id) || session_needs_hand(session.status)
        || session.submit_state == SubmitState::Uncertain
}

fn any_part_needs_hand(segments: &Vec<SegmentRow>, session_id: i64) -> (r: bool)
    ensures
        r == some_part_needs_hand(segments@, session_id),
{
    let mut i: usize = 0;
    while i < segments.len()
        invariant
            i <= segments.len(),
            forall|k: int|
                0 <= k < i ==> !((#[trigger] segments@[k]).session_id == session_id && needs_hand(
                    segments@[k].status,
                )),
        decreases segments.len() - i,
    {
        if segments[i].session_id == session_id && (segments[i].status == SegmentStatus::Conflict
            || segments[i].status == SegmentStatus::SubmissionUncertain) {
            return true;
        }
        i = i + 1;
    }
    false
}

/// The state of a session as users see it.
pub open spec fn session_user_state(
    attention: bool,
    status: SessionStatus,
    ended: bool,
    completed: bool,
) -> ReplayUserState {
    if attention {
        ReplayUserState::Error
    } else if status == SessionStatus::Recording && !ended {
        ReplayUserState::Recording
    } else if completed {
        ReplayUserState::Waiting
    } else {
        ReplayUserState::Uploading
    }
}

/// What is told of a session at a glance.
pub open spec fn session_summary(
    session: SessionRow,
    segments: Seq<SegmentRow>,
    names: SessionNames,
) -> ReplaySessionSummary {
    let pending = crate::clock::clamp_i64(pending_of(segments, session.id) as int);
    let attention = wants_attention(session, segments);
    let completed = session.status == SessionStatus::Complete && pending == 0;
    ReplaySessionSummary {
        id: session.id,
        streamer_name: names.streamer_name,
        live_title: session.live_title,
        started_at: names.started_at,
        ended_at: names.ended_at,
        user_state: session_user_state(
            attention,
            session.status,
            names.ended_at is Some,
            completed,
        ),
        completed,
        expected_parts: session.expected_parts,
        verified_parts: session.verified_parts,
        pending_parts: pending,
        bvid: session.bvid,
        last_error: session.last_error,
        requires_submission_reconciliation: attention && session.submit_state
            == SubmitState::Uncertain,
    }
}

/// A session in short.
pub fn summarize_session(
    session: SessionRow,
    segments: &Vec<SegmentRow>,
    names: SessionNames,
) -> (r: ReplaySessionSummary)
    ensures
        r == session_summary(session, segments@, names),
{
    let pending: i64 = pending_parts(segments, session.id);
    let attention = any_part_needs_hand(segments, session.id) || session.status
        == SessionStatus::Conflict || session.status == SessionStatus::SubmissionUncertain
        || session.submit_state == SubmitState::Uncertain;
    let completed = session.status == SessionStatus::Complete && pending == 0;
    let user_state = if attention {
        ReplayUserState::Error
    } else if session.status == SessionStatus::Recording && names.ended_at.is_none() {
        ReplayUserState::Recording
    } else if completed {
        ReplayUserState::Waiting
    } else {
        ReplayUserState::Uploading
    };
    ReplaySessionSummary {
        id: session.id,
        streamer_name: names.streamer_name,
        live_title: session.live_title,
        started_at: names.started_at,
        ended_at: names.ended_at,
        user_state,
        completed,
        expected_parts: session.expected_parts,
        verified_parts: session.verified_parts,
        pending_parts: pending,
        bvid: session.bvid,
        last_error: session.last_error,
        requires_submission_reconciliation: attention && session.submit_state
            == SubmitState::Uncertain,
    }
}

/// True for the states of a job that wait for somebody to look at them.
pub open spec fn job_needs_hand(status: JobStatus) -> bool {
    status == JobStatus::Conflict || status == JobStatus::SubmissionUncertain
}

/// What is told of a part at a glance.
pub open spec fn segment_summary(
    job: JobRow,
    segment: SegmentRow,
    streamer_name: String,
) -> ReplaySegmentSummary {
    let completed = job.status == JobStatus::Complete;
    ReplaySegmentSummary {
        job_id: job.id,
        session_id: segment.session_id,
        streamer_name,
        part_number: segment.part_number,
        user_state: if needs_hand(segment.status) || job_needs_hand(job.status) {
            ReplayUserState::Error
        } else if completed {
            ReplayUserState::Waiting
        } else {
            ReplayUserState::Uploading
        },
        completed,
        file_size: segment.file_size,
        attempts: job.attempts,
        last_error: either(job.last_error, segment.last_error),
        next_attempt_at: either(job.next_attempt_at, segment.next_retry_at),
        can_retry: !completed && job.status != JobStatus::SubmissionUncertain && segment.status
            != SegmentStatus::SubmissionUncertain,
    }
}

/// A part in short.
pub fn summarize_segment(job: JobRow, segment: SegmentRow, streamer_name: String) -> (r:
    ReplaySegmentSummary)
    ensures
        r == segment_summary(job, segment, streamer_name),
{
    let completed = job.status == JobStatus::Complete;
    let attention = segment.status == SegmentStatus::Conflict || segment.status
        == SegmentStatus::SubmissionUncertain || job.status == JobStatus::Conflict || job.status
        == JobStatus::SubmissionUncertain;
    ReplaySegmentSummary {
        job_id: job.id,
        session_id: segment.session_id,
        streamer_name,
        part_number: segment.part_number,
        user_state: if attention {
            ReplayUserState::Error
        } else if completed {
            ReplayUserState::Waiting
        } else {
            ReplayUserState::Uploading
        },
        completed,
        file_size: segment.file_size,
        attempts: job.attempts,
        last_error: first_given(job.last_error, segment.last_error),
        next_attempt_at: first_given(job.next_attempt_at, segment.next_retry_at),
        can_retry: !completed && job.status != JobStatus::SubmissionUncertain && segment.status
            != SegmentStatus::SubmissionUncertain,
    }
}

/// What is shown of the upload queue in short: the newest sessions, newest first, and the parts,
/// those in progress first.
pub fn get_replay_activity(
    sessions: Vec<ReplaySessionSummary>,
    segments: Vec<ReplaySegmentSummary>,
) -> (r: ReplayActivityResponse)
    ensures
        r.sessions@ == first_of(ordered(sessions@), SHOWN_SESSIONS as nat),
        r.segments@ == first_of(ordered(segments@), SHOWN_JOBS as nat),
{
    let mut sessions = stable_sort(sessions);
    keep_first(&mut sessions, SHOWN_SESSIONS);
    let mut segments = stable_sort(segments);
    keep_first(&mut segments, SHOWN_JOBS);
    ReplayActivityResponse { sessions, segments }
}

/// How far a part has come.
#[derive(Clone, Copy, Debug, PartialEq, Eq, Structural)]
pub enum SubmissionPartPhase {
    Recording,
    Waiting,
    Uploading,
    Completed,
    Error,
}

/// A part of a submission as it is shown.
#[derive(Debug)]
pub struct SubmissionPart {
    pub job_id: Option<i64>,
    pub part_number: i64,
    pub phase: SubmissionPartPhase,
    pub file_size: i64,
    pub last_error: Option<String>,
    pub can_retry: bool,
}

impl Clone for SubmissionPart {
    fn clone(&self) -> (r: Self)
        ensures
            r == *self,
    {
        SubmissionPart {
            job_id: self.job_id,
            part_number: self.part_number,
            phase: self.phase,
            file_size: self.file_size,
            last_error: match &self.last_error {
                Some(message) => Some(message.clone()),
                None => None,
            },
            can_retry: self.can_retry,
        }
    }
}

impl Ranked for SubmissionPart {
    open spec fn ranks_before(self, other: Self) -> bool {
        self.part_number <= other.part_number
    }

    fn not_after(&self, other: &Self) -> (r: bool) {
        self.part_number <= other.part_number
    }

    proof fn total(a: Self, b: Self) {
    }

    proof fn transitive(a: Self, b: Self, c: Self) {
    }
}

/// A submission as it is shown.
#[derive(Debug)]
pub struct SubmissionSession {
    pub id: i64,
    pub streamer_name: String,
    pub bvid: Option<String>,
    pub requires_submission_reconciliation: bool,
    pub last_error: Option<String>,
    pub parts: Vec<SubmissionPart>,
}

/// The submissions that are shown.
#[derive(Debug)]
pub struct SubmissionActivityResponse {
    pub sessions: Vec<SubmissionSession>,
}

/// How far a part has come.
pub open spec fn phase_of(
    segment_status: SegmentStatus,
    job_status: JobStatus,
    last_error: Option<Seq<char>>,
) -> SubmissionPartPhase {
    if needs_hand(segment_status) || job_needs_hand(job_status) || ((segment_status
        == SegmentStatus::RetryWait || job_status == JobStatus::RetryWait) && (
    last_error matches Some(m) && !is_blank(m))) {
        SubmissionPartPhase::Error
    } else if job_status == JobStatus::Complete || segment_status == SegmentStatus::RemoteVerified
        || segment_status == SegmentStatus::CleanupPending || is_terminal(segment_status) {
        SubmissionPartPhase::Completed
    } else if job_status == JobStatus::Uploading || job_status == JobStatus::RemoteProcessing
        || job_status == JobStatus::RemoteVerified || segment_status == SegmentStatus::Uploading
        || segment_status == SegmentStatus::UploadedToStorage || segment_status
        == SegmentStatus::Submitting || segment_status == SegmentStatus::RemoteProcessing {
        SubmissionPartPhase::Uploading
    } else {
        SubmissionPartPhase::Waiting
    }
}

/// How far a part has come, from its state, the state of its job and its last error.
pub fn part_phase(
    segment_status: &SegmentStatus,
    job_status: &JobStatus,
    last_error: Option<&str>,
) -> (r: SubmissionPartPhase)
    ensures
        r == phase_of(
            *segment_status,
            *job_status,
            match last_error {
                Some(m) => Some(m@),
                None => None,
            },
        ),
{
    let waits = *segment_status == SegmentStatus::RetryWait || *job_status == JobStatus::RetryWait;
    let told = match last_error {
        Some(message) => !blank(message),
        None => false,
    };
    if *segment_status == SegmentStatus::Conflict || *segment_status
        == SegmentStatus::SubmissionUncertain || *job_status == JobStatus::Conflict || *job_status
        == JobStatus::SubmissionUncertain || (waits && told) {
        return SubmissionPartPhase::Error;
    }
    if *job_status == JobStatus::Complete || *segment_status == SegmentStatus::RemoteVerified
        || *segment_status == SegmentStatus::CleanupPending || segment_is_terminal(segment_status) {
        return SubmissionPartPhase::Completed;
    }
    if *job_status == JobStatus::Uploading || *job_status == JobStatus::RemoteProcessing
        || *job_status == JobStatus::RemoteVerified || *segment_status == SegmentStatus::Uploading
        || *segment_status == SegmentStatus::UploadedToStorage || *segment_status
        == SegmentStatus::Submitting || *segment_status == SegmentStatus::RemoteProcessing {
        return SubmissionPartPhase::Uploading;
    }
    SubmissionPartPhase::Waiting
}

/// A part with its session.
#[derive(Debug)]
pub struct ListedPart {
    pub session_id: i64,
    pub part: SubmissionPart,
}

/// A part as it is shown in its submission.
pub open spec fn part_shown(segment: SegmentRow, job: Option<JobRow>) -> ListedPart {
    let job_status = match job {
        Some(j) => j.status,
        None => JobStatus::Queued,
    };
    let last_error = match job {
        Some(j) => either(j.last_error, segment.last_error),
        None => segment.last_error,
    };
    let phase = phase_of(segment.status, job_status, opt_text(last_error));
    ListedPart {
        session_id: segment.session_id,
        part: SubmissionPart {
            job_id: match job {
                Some(j) => Some(j.id),
                None => None,
            },
            part_number: segment.part_number,
            phase,
            file_size: segment.file_size,
            last_error,
            can_retry: phase == SubmissionPartPhase::Error && (segment.status
                == SegmentStatus::RetryWait || job_status == JobStatus::RetryWait),
        },
    }
}

/// A part as it is shown, from its row and the row of its job. A part without a job counts as one
/// whose job is queued.
pub fn submission_part(segment: SegmentRow, job: Option<JobRow>) -> (r: ListedPart)
    ensures
        r == part_shown(segment, job),
{
    let (job_id, job_status, last_error) = match job {
        Some(job) => (
            Some(job.id),
            job.status,
            first_given(job.last_error, segment.last_error),
        ),
        None => (None, JobStatus::Queued, segment.last_error),
    };
    let shown = match &last_error {
        Some(message) => Some(message.as_str()),
        None => None,
    };
    let phase = part_phase(&segment.status, &job_status, shown);
    let can_retry = phase == SubmissionPartPhase::Error && (segment.status
        == SegmentStatus::RetryWait || job_status == JobStatus::RetryWait);
    ListedPart {
        session_id: segment.session_id,
        part: SubmissionPart {
            job_id,
            part_number: segment.part_number,
            phase,
            file_size: segment.file_size,
            last_error,
            can_retry,
        },
    }
}

/// The parts of a session, in the order of the list.
pub open spec fn parts_of(listed: Seq<ListedPart>, session_id: i64) -> Seq<SubmissionPart>
    decreases listed.len(),
{
    if listed.len() == 0 {
        Seq::empty()
    } else {
        let rest = parts_of(listed.drop_last(), session_id);
        if listed.last().session_id == session_id {
            rest.push(listed.last().part)
        } else {
            rest
        }
    }
}

/// The part of a session that is being recorded.
pub open spec fn recording_part(session: SessionRow) -> SubmissionPart {
    SubmissionPart {
        job_id: None,
        part_number: crate::replay_rows::counted(session.expected_parts),
        phase: SubmissionPartPhase::Recording,
        file_size: 0,
        last_error: None,
        can_retry: false,
    }
}

/// The parts that are shown of a session: its parts by number, and the one that is being recorded
/// while the session has not ended.
pub open spec fn shown_parts(session: SessionRow, listed: Seq<ListedPart>) -> Seq<SubmissionPart> {
    ordered(
        if session.ended_at is None {
            parts_of(listed, session.id).push(recording_part(session))
        } else {
            parts_of(listed, session.id)
        },
    )
}

/// A submission as it is shown.
pub fn submission_session(
    session: SessionRow,
    streamer_name: String,
    listed: &Vec<ListedPart>,
) -> (r: SubmissionSession)
    ensures
        r.id == session.id,
        r.streamer_name == streamer_name,
        r.bvid == session.bvid,
        r.last_error == session.last_error,
        r.requires_submission_reconciliation == (session.submit_state == SubmitState::Uncertain
            || session.status == SessionStatus::SubmissionUncertain),
        r.parts@ == shown_parts(session, listed@),
{
    let mut parts: Vec<SubmissionPart> = Vec::new();
    let mut i: usize = 0;
    while i < listed.len()
        invariant
            i <= listed.len(),
            parts@ == parts_of(listed@.take(i as int), session.id),
        decreases listed.len() - i,
    {
        proof {
            assert(listed@.take(i + 1).drop_last() =~= listed@.take(i as int));
        }
        if listed[i].session_id == session.id {
            parts.push(listed[i].part.clone());
        }
        i = i + 1;
    }
    assert(listed@.take(i as int) =~= listed@);
    if session.ended_at.is_none() {
        parts.push(
            SubmissionPart {
                job_id: None,
                part_number: crate::clock::saturating_later(session.expected_parts, 1),
                phase: SubmissionPartPhase::Recording,
                file_size: 0,
                last_error: None,
                can_retry: false,
            },
        );
    }
    let parts = stable_sort(parts);
    SubmissionSession {
        id: session.id,
        streamer_name,
        bvid: session.bvid,
        requires_submission_reconciliation: session.submit_state == SubmitState::Uncertain
            || session.status == SessionStatus::SubmissionUncertain,
        last_error: session.last_error,
        parts,
    }
}

/// A session with the name of its streamer.
#[derive(Debug)]
pub struct NamedSession {
    pub session: SessionRow,
    pub streamer_name: String,
}

impl Ranked for NamedSession {
    open spec fn ranks_before(self, other: Self) -> bool {
        self.session.id >= other.session.id
    }

    fn not_after(&self, other: &Self) -> (r: bool) {
        self.session.id >= other.session.id
    }

    proof fn total(a: Self, b: Self) {
    }

    proof fn transitive(a: Self, b: Self, c: Self) {
    }
}

/// A submission that shows a session.
pub open spec fn shows(
    shown: SubmissionSession,
    named: NamedSession,
    listed: Seq<ListedPart>,
) -> bool {
    &&& shown.id == named.session.id
    &&& shown.streamer_name == named.streamer_name
    &&& shown.bvid == named.session.bvid
    &&& shown.last_error == named.session.last_error
    &&& shown.requires_submission_reconciliation == (named.session.submit_state
        == SubmitState::Uncertain || named.session.status == SessionStatus::SubmissionUncertain)
    &&& shown.parts@ == shown_parts(named.session, listed)
}

/// The submissions that are shown: those of the newest sessions, newest first, each with its
/// parts.
pub fn get_submission_activity(sessions: Vec<NamedSession>, listed: &Vec<ListedPart>) -> (r:
    SubmissionActivityResponse)
    ensures
        ({
            let newest = first_of(ordered(sessions@), SHOWN_SESSIONS as nat);
            &&& r.sessions@.len() == newest.len()
            &&& forall|i: int|
                0 <= i < newest.len() ==> shows(#[trigger] r.sessions@[i], newest[i], listed@)
        }),
{
    let mut newest = stable_sort(sessions);
    keep_first(&mut newest, SHOWN_SESSIONS);
    let ghost all = newest@;
    let mut shown: Vec<SubmissionSession> = Vec::new();
    while newest.len() > 0
        invariant
            newest@ == all.skip(shown@.len() as int),
            shown@.len() <= all.len(),
            forall|i: int|
                0 <= i < shown@.len() ==> shows(#[trigger] shown@[i], all[i], listed@),
        decreases newest.len(),
    {
        let ghost k = shown@.len() as int;
        let next = newest.remove(0);
        assert(next == all[k]);
        shown.push(submission_session(next.session, next.streamer_name, listed));
        assert(newest@ =~= all.skip(k + 1));
    }
    SubmissionActivityResponse { sessions: shown }
}

/// A part can be tried again only while it waits after a failure that is told.
pub proof fn law_retry_only_after_failure(
    segment_status: SegmentStatus,
    job_status: JobStatus,
    last_error: Option<Seq<char>>,
)
    requires
        phase_of(segment_status, job_status, last_error) == SubmissionPartPhase::Error,
        segment_status == SegmentStatus::RetryWait || job_status == JobStatus::RetryWait,
        !needs_hand(segment_status),
        !job_needs_hand(job_status),
    ensures
        last_error matches Some(m) && !is_blank(m),
{
}

/// A job is shown with the part it is for, as both are stored. Where both hold a message or a time,
/// that of the job is shown.
pub proof fn law_job_is_shown_as_stored(
    job: JobRow,
    segment: SegmentRow,
    streamer_name: String,
    bvid: Option<String>,
    original_file_path: Option<String>,
)
    ensures
        ({
            let r = job_shown(job, segment, streamer_name, bvid, original_file_path);
            &&& r.id == job.id && r.job_status == job.status && r.attempts == job.attempts
            &&& r.session_id == segment.session_id && r.segment_id == segment.id
            &&& r.part_number == segment.part_number
            &&& r.file_path == segment.file_path
            &&& r.original_file_path == original_file_path
            &&& r.processed_file_path == segment.processed_file_path
            &&& r.remote_filename == segment.remote_filename
            &&& r.file_size == segment.file_size
            &&& r.segment_status == segment.status && r.cleanup_state == segment.cleanup_state
            &&& r.uploaded_at == segment.uploaded_at && r.verified_at == segment.verified_at
                && r.deleted_at == segment.deleted_at
            &&& r.streamer_name == streamer_name && r.bvid == bvid
            &&& job.last_error is Some ==> r.last_error == job.last_error
            &&& job.last_error is None ==> r.last_error == segment.last_error
            &&& job.next_attempt_at is Some ==> r.next_attempt_at == job.next_attempt_at
            &&& job.next_attempt_at is None ==> r.next_attempt_at == segment.next_retry_at
        }),
{
}

/// A session is shown as it is stored.
pub proof fn law_session_is_shown_as_stored(
    session: SessionRow,
    names: SessionNames,
    pending_parts: i64,
)
    ensures
        ({
            let r = session_shown(session, names, pending_parts);
            &&& r.id == session.id && r.live_streamer_id == session.live_streamer_id
            &&& r.live_title == session.live_title
            &&& r.status == session.status && r.submit_state == session.submit_state
            &&& r.aid == session.aid && r.bvid == session.bvid
            &&& r.expected_parts == session.expected_parts
            &&& r.verified_parts == session.verified_parts
            &&& r.next_part_to_upload == session.next_part_to_upload
            &&& r.delete_after_success == session.delete_after_success
            &&& r.preserve_danmaku == session.preserve_danmaku
            &&& r.last_error == session.last_error
            &&& r.pending_parts == pending_parts
            &&& r.streamer_name == names.streamer_name && r.streamer_url == names.streamer_url
            &&& r.started_at == names.started_at && r.ended_at == names.ended_at
        }),
{
}

/// A session is told to be completed once it is complete and no part of it waits; trouble with it or
/// with one of its parts is told before anything else.
pub proof fn law_session_at_a_glance(
    session: SessionRow,
    segments: Seq<SegmentRow>,
    names: SessionNames,
    part: int,
)
    requires
        0 <= part < segments.len(),
        segments[part].session_id == session.id,
    ensures
        ({
            let r = session_summary(session, segments, names);
            let trouble = segments[part].status == SegmentStatus::Conflict || segments[part].status
                == SegmentStatus::SubmissionUncertain || session.status == SessionStatus::Conflict
                || session.status == SessionStatus::SubmissionUncertain || session.submit_state
                == SubmitState::Uncertain;
            &&& r.id == session.id && r.live_title == session.live_title
            &&& r.streamer_name == names.streamer_name
            &&& r.started_at == names.started_at && r.ended_at == names.ended_at
            &&& r.expected_parts == session.expected_parts
            &&& r.verified_parts == session.verified_parts
            &&& r.bvid == session.bvid && r.last_error == session.last_error
            &&& trouble ==> r.user_state == ReplayUserState::Error
            &&& r.completed ==> session.status == SessionStatus::Complete && (segments[part].status
                == SegmentStatus::Deleted || segments[part].status == SegmentStatus::Retained)
            &&& r.requires_submission_reconciliation <==> session.submit_state
                == SubmitState::Uncertain
            &&& r.user_state == ReplayUserState::Recording ==> session.status
                == SessionStatus::Recording && names.ended_at is None
            &&& r.user_state == ReplayUserState::Waiting ==> r.completed
        }),
{
    if !is_terminal(segments[part].status) {
        lemma_pending_of(segments, session.id, part);
    }
    if needs_hand(segments[part].status) {
        assert(some_part_needs_hand(segments, session.id));
    }
}

proof fn lemma_pending_of(segments: Seq<SegmentRow>, session_id: i64, part: int)
    requires
        0 <= part < segments.len(),
        segments[part].session_id == session_id,
        !is_terminal(segments[part].status),
    ensures
        pending_of(segments, session_id) > 0,
    decreases segments.len(),
{
    if part < segments.len() - 1 {
        lemma_pending_of(segments.drop_last(), session_id, part);
    }
}

/// The waiting parts of a session are counted one by one, each until it is deleted or retained.
pub proof fn law_waiting_parts_of_a_session(
    segments: Seq<SegmentRow>,
    part: SegmentRow,
    session_id: i64,
)
    ensures
        pending_of(segments.push(part), session_id) == pending_of(segments, session_id)
            + if part.session_id == session_id && part.status != SegmentStatus::Deleted
            && part.status != SegmentStatus::Retained {
            1int
        } else {
            0
        },
        pending_of(Seq::empty(), session_id) == 0,
{
    assert(segments.push(part).drop_last() =~= segments);
}

/// A part is told as it is stored; it may be tried again unless it is done or its submission is
/// uncertain.
pub proof fn law_part_at_a_glance(job: JobRow, segment: SegmentRow, streamer_name: String)
    ensures
        ({
            let r = segment_summary(job, segment, streamer_name);
            &&& r.job_id == job.id && r.session_id == segment.session_id
            &&& r.part_number == segment.part_number && r.file_size == segment.file_size
            &&& r.attempts == job.attempts && r.streamer_name == streamer_name
            &&& r.completed <==> job.status == JobStatus::Complete
            &&& r.can_retry <==> job.status != JobStatus::Complete && job.status
                != JobStatus::SubmissionUncertain && segment.status
                != SegmentStatus::SubmissionUncertain
            &&& r.user_state == ReplayUserState::Error <==> segment.status
                == SegmentStatus::Conflict || segment.status == SegmentStatus::SubmissionUncertain
                || job.status == JobStatus::Conflict || job.status
                == JobStatus::SubmissionUncertain
            &&& job.last_error is Some ==> r.last_error == job.last_error
            &&& job.last_error is None ==> r.last_error == segment.last_error
            &&& job.next_attempt_at is Some ==> r.next_attempt_at == job.next_attempt_at
            &&& job.next_attempt_at is None ==> r.next_attempt_at == segment.next_retry_at
            &&& r.user_state != ReplayUserState::Recording
        }),
{
}

/// A part is shown in its submission under its own number, session, size and job.
pub proof fn law_part_shown(segment: SegmentRow, job: Option<JobRow>)
    ensures
        ({
            let r = part_shown(segment, job);
            &&& r.session_id == segment.session_id
            &&& r.part.part_number == segment.part_number
            &&& r.part.file_size == segment.file_size
            &&& job matches Some(j) ==> r.part.job_id == Some(j.id)
            &&& job is None ==> r.part.job_id is None && r.part.last_error == segment.last_error
            &&& r.part.can_retry ==> r.part.phase == SubmissionPartPhase::Error
            &&& r.part.phase != SubmissionPartPhase::Recording
            &&& segment.status == SegmentStatus::Queued && job is None ==> r.part.phase
                == SubmissionPartPhase::Waiting
        }),
{
}

/// The phase of a part follows from where it stands: trouble is shown first; a part that the service
/// has, or whose file is deleted or retained, is done; one on its way there is uploading; and one
/// that was not begun waits.
pub proof fn law_phases(
    segment_status: SegmentStatus,
    job_status: JobStatus,
    last_error: Option<Seq<char>>,
)
    ensures
        ({
            let phase = phase_of(segment_status, job_status, last_error);
            let trouble = segment_status == SegmentStatus::Conflict || segment_status
                == SegmentStatus::SubmissionUncertain || job_status == JobStatus::Conflict
                || job_status == JobStatus::SubmissionUncertain;
            let waits = segment_status == SegmentStatus::RetryWait || job_status
                == JobStatus::RetryWait;
            let told = last_error is Some && !is_blank(last_error->0);
            let done = job_status == JobStatus::Complete || segment_status
                == SegmentStatus::RemoteVerified || segment_status == SegmentStatus::CleanupPending
                || segment_status == SegmentStatus::Deleted || segment_status
                == SegmentStatus::Retained;
            &&& phase == SubmissionPartPhase::Error <==> trouble || (waits && told)
            &&& done && !trouble && !(waits && told) ==> phase == SubmissionPartPhase::Completed
            &&& phase == SubmissionPartPhase::Completed ==> done
            &&& segment_status == SegmentStatus::Queued && job_status == JobStatus::Queued ==> phase
                == SubmissionPartPhase::Waiting
            &&& (segment_status == SegmentStatus::Uploading || segment_status
                == SegmentStatus::UploadedToStorage || segment_status == SegmentStatus::Submitting
                || segment_status == SegmentStatus::RemoteProcessing) && job_status
                == JobStatus::Uploading ==> phase == SubmissionPartPhase::Uploading
            &&& phase != SubmissionPartPhase::Recording
        }),
{
}

/// Exactly the parts of a session are listed for it, in the order they come.
pub proof fn law_listed_parts(listed: Seq<ListedPart>, one: ListedPart, session_id: i64)
    ensures
        parts_of(listed.push(one), session_id) == if one.session_id == session_id {
            parts_of(listed, session_id).push(one.part)
        } else {
            parts_of(listed, session_id)
        },
        parts_of(Seq::empty(), session_id).len() == 0,
{
    assert(listed.push(one).drop_last() =~= listed);
}

/// A session that is still recorded shows the part in progress behind the parts it has; the parts
/// are in the order of their numbers, and none is lost.
pub proof fn law_shown_parts(session: SessionRow, listed: Seq<ListedPart>, i: int)
    requires
        0 <= i < listed.len(),
        listed[i].session_id == session.id,
    ensures
        shown_parts(session, listed).contains(listed[i].part),
        forall|a: int, b: int|
            0 <= a < b < shown_parts(session, listed).len() ==> (#[trigger] shown_parts(
                session,
                listed,
            )[a]).part_number <= (#[trigger] shown_parts(session, listed)[b]).part_number,
        shown_parts(session, listed).len() == parts_of(listed, session.id).len()
            + if session.ended_at is None {
            1int
        } else {
            0
        },
        recording_part(session).phase == SubmissionPartPhase::Recording,
        session.expected_parts < i64::MAX ==> recording_part(session).part_number
            == session.expected_parts + 1,
        !recording_part(session).can_retry,
{
    let all = if session.ended_at is None {
        parts_of(listed, session.id).push(recording_part(session))
    } else {
        parts_of(listed, session.id)
    };
    lemma_parts_of(listed, session.id, i);
    let k = parts_of(listed, session.id).index_of(listed[i].part);
    assert(all[k] == listed[i].part);
    assert(all.contains(listed[i].part));
    law_ordered(all);
    all.to_multiset_ensures();
    ordered(all).to_multiset_ensures();
    assert(ordered(all).to_multiset().count(listed[i].part) > 0);
    assert forall|a: int, b: int| 0 <= a < b < ordered(all).len() implies (#[trigger] ordered(
        all,
    )[a]).part_number <= (#[trigger] ordered(all)[b]).part_number by {
        assert(ordered(all)[a].ranks_before(ordered(all)[b]));
    }
}

proof fn lemma_parts_of(listed: Seq<ListedPart>, session_id: i64, i: int)
    requires
        0 <= i < listed.len(),
        listed[i].session_id == session_id,
    ensures
        parts_of(listed, session_id).contains(listed[i].part),
    decreases listed.len(),
{
    let rest = listed.drop_last();
    let all = parts_of(listed, session_id);
    if i < rest.len() {
        lemma_parts_of(rest, session_id, i);
        let k = parts_of(rest, session_id).index_of(listed[i].part);
        assert(all[k] == listed[i].part);
    } else {
        assert(all[all.len() - 1] == listed[i].part);
    }
}

/// Of many rows the first are shown, as many as there is room for.
pub proof fn law_first_rows<T>(s: Seq<T>, n: nat)
    ensures
        first_of(s, n).is_prefix_of(s),
        first_of(s, n).len() <= n,
        s.len() <= n ==> first_of(s, n) == s,
        s.len() >= n ==> first_of(s, n).len() == n,
{
}

/// Jobs that are not done are shown before those that are, then the newest session first, then the
/// parts in order; sessions are shown with the newest first.
pub proof fn law_order_of_jobs(a: ReplayJobResponse, b: ReplayJobResponse)
    ensures
        (a.job_status == JobStatus::Queued || a.job_status == JobStatus::Uploading || a.job_status
            == JobStatus::RetryWait || a.job_status == JobStatus::Conflict || a.job_status
            == JobStatus::SubmissionUncertain || a.job_status == JobStatus::RemoteVerified)
            && b.job_status == JobStatus::Complete ==> a.ranks_before(b) && !b.ranks_before(a),
        a.job_status == b.job_status && a.session_id > b.session_id ==> a.ranks_before(b)
            && !b.ranks_before(a),
        a.job_status == b.job_status && a.session_id == b.session_id && a.part_number
            < b.part_number ==> a.ranks_before(b) && !b.ranks_before(a),
{
}

/// A part is shown as uploading while its job or its own state says so, and nothing worse or better
/// is known of it.
pub proof fn law_uploading_phase(
    segment_status: SegmentStatus,
    job_status: JobStatus,
    last_error: Option<Seq<char>>,
)
    ensures
        ({
            let phase = phase_of(segment_status, job_status, last_error);
            let on_its_way = job_status == JobStatus::Uploading || job_status
                == JobStatus::RemoteProcessing || job_status == JobStatus::RemoteVerified
                || segment_status == SegmentStatus::Uploading || segment_status
                == SegmentStatus::UploadedToStorage || segment_status == SegmentStatus::Submitting
                || segment_status == SegmentStatus::RemoteProcessing;
            &&& phase == SubmissionPartPhase::Uploading ==> on_its_way
            &&& on_its_way ==> phase != SubmissionPartPhase::Waiting
        }),
{
}

/// A submission is shown with the session it belongs to and all its parts.
pub proof fn law_submission_shown(
    shown: SubmissionSession,
    named: NamedSession,
    listed: Seq<ListedPart>,
    i: int,
)
    requires
        shows(shown, named, listed),
        0 <= i < listed.len(),
        listed[i].session_id == named.session.id,
    ensures
        shown.id == named.session.id,
        shown.streamer_name == named.streamer_name,
        shown.bvid == named.session.bvid,
        shown.last_error == named.session.last_error,
        shown.parts@.contains(listed[i].part),
        named.session.submit_state == SubmitState::Uncertain || named.session.status
            == SessionStatus::SubmissionUncertain <==> shown.requires_submission_reconciliation,
{
    law_shown_parts(named.session, listed, i);
}

} // verus!
