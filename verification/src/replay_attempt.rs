//! One attempt to bring a part into the submission of its session, as a machine: every event from
//! the outside changes the rows of the part and names the next thing to do. The rows are written
//! back before that thing is done.

use crate::replay_queue::{
    after_await_failed, await_decision, conflict_text, counted_as, creation_failed, maybe_accepted,
    maybe_created, not_ready, other_file, remote_decision, remote_number, submission_plan,
    AwaitDecision, RemoteDecision, RemotePartState, SubmissionPlan, VERIFY_ATTEMPTS,
};
use crate::replay_rows::{
    counted, mark_conflict, mark_remote_verified, mark_submission_uncertain, mark_submitting,
    mark_uploading, save_remote_ids, save_uploaded_file, JobRow, SegmentRow, SessionRow,
};
use crate::statuses::{CleanupState, JobStatus, SegmentStatus, SessionStatus, SubmitState};
use vstd::prelude::*;

verus! {

/// The rows that an attempt works on.
#[derive(Debug)]
pub struct AttemptRows {
    pub session: SessionRow,
    pub segment: SegmentRow,
    pub job: JobRow,
}

/// How far an attempt has come.
#[derive(Debug)]
pub enum AttemptStage {
    /// Nothing has been done.
    Begin,
    /// The login and the upload line are being set up.
    Initializing,
    /// The file is being uploaded.
    Uploading,
    /// The contents of a new submission are being put together.
    Building,
    /// The submission is being created.
    Creating,
    /// The place of the part in its submission is being looked at.
    CheckingPlace { aid: u64 },
    /// The part is being appended.
    Appending { aid: u64 },
    /// The part is expected to become ready; this is the look with this number.
    Awaiting { aid: u64, look: usize },
    /// Waiting failed with this error; the place is looked at once more.
    Confirming { error: String },
    /// The attempt is over.
    Done,
}

/// What happened outside.
#[derive(Debug)]
pub enum AttemptEvent {
    /// The attempt was started.
    Started,
    Initialized(Result<(), String>),
    /// The file at this path is on the server under this name.
    Uploaded(Result<(String, String), String>),
    Built(Result<(), String>),
    /// The submission was created, with these identifiers.
    Created(Result<(u64, Option<String>), CreationFailure>),
    RemoteSeen(Result<RemotePartState, String>),
    Appended(Result<(), String>),
}

/// Why there are no identifiers after a submission was asked for.
#[derive(Debug)]
pub enum CreationFailure {
    /// The request failed; whether it was carried out is not known.
    Request(String),
    /// The answer could not be understood.
    Answer(String),
}

/// What is to be done next.
#[derive(Debug)]
pub enum AttemptAction {
    /// Log in and choose an upload line.
    Initialize,
    /// Prepare the file and upload it.
    UploadFile,
    /// Put the contents of a new submission together.
    BuildSubmission,
    /// Create the submission.
    CreateSubmission,
    /// Look at the part in this submission.
    LookAtRemote { aid: u64 },
    /// Wait for the interval between two looks, then look at the part in this submission.
    PauseThenLook { aid: u64 },
    /// Append the part to this submission.
    Append { aid: u64 },
    /// Deal with the local files of the verified part.
    CleanUp,
    /// Nothing; the attempt has ended in order.
    Finish,
    /// Nothing; the attempt has failed.
    Fail(String),
}

/// An event is one that can happen at a stage.
pub open spec fn fits(stage: AttemptStage, event: AttemptEvent) -> bool {
    match stage {
        AttemptStage::Begin => event is Started,
        AttemptStage::Initializing => event is Initialized,
        AttemptStage::Uploading => event is Uploaded,
        AttemptStage::Building => event is Built,
        AttemptStage::Creating => event is Created,
        AttemptStage::CheckingPlace { .. } => event is RemoteSeen,
        AttemptStage::Appending { .. } => event is Appended,
        AttemptStage::Awaiting { .. } => event is RemoteSeen,
        AttemptStage::Confirming { .. } => event is RemoteSeen,
        AttemptStage::Done => false,
    }
}

/// A part is verified: only its local files are left to deal with.
pub open spec fn is_verified(status: SegmentStatus) -> bool {
    status == SegmentStatus::RemoteVerified || status == SegmentStatus::CleanupPending
}

/// The rows after the upload of a part has started.
pub open spec fn upload_started(rows: AttemptRows, now: i64) -> AttemptRows {
    AttemptRows {
        session: rows.session,
        segment: SegmentRow {
            status: SegmentStatus::Uploading,
            last_error: None,
            next_retry_at: None,
            ..rows.segment
        },
        job: JobRow {
            status: JobStatus::Uploading,
            attempts: counted(rows.job.attempts),
            locked_at: Some(now),
            last_error: None,
            next_attempt_at: None,
            ..rows.job
        },
    }
}

/// The rows after the file of a part has been uploaded.
pub open spec fn file_uploaded(rows: AttemptRows, path: String, name: String, now: i64) -> AttemptRows {
    AttemptRows {
        segment: SegmentRow {
            status: SegmentStatus::UploadedToStorage,
            uploaded_filename: Some(path),
            remote_filename: Some(name),
            uploaded_at: Some(now),
            last_error: None,
            ..rows.segment
        },
        ..rows
    }
}

/// The rows after a session was stopped because its submission is uncertain.
pub open spec fn stopped_uncertain(rows: AttemptRows, after: AttemptRows, text: Seq<char>) -> bool {
    &&& after.session.last_error matches Some(m) && m@ == text
    &&& after == (AttemptRows {
        session: SessionRow {
            submit_state: SubmitState::Uncertain,
            status: SessionStatus::SubmissionUncertain,
            last_error: after.session.last_error,
            ..rows.session
        },
        segment: SegmentRow {
            status: SegmentStatus::SubmissionUncertain,
            last_error: after.session.last_error,
            ..rows.segment
        },
        job: JobRow {
            status: JobStatus::SubmissionUncertain,
            last_error: after.session.last_error,
            ..rows.job
        },
    })
}

/// The rows after a session was stopped because another file is at the place of the part.
pub open spec fn stopped_conflict(rows: AttemptRows, after: AttemptRows, other: Seq<char>) -> bool {
    &&& after.session.last_error matches Some(m) && m@ == conflict_text(
        rows.segment.part_number as int,
        other,
        remote_name(rows.segment),
    )
    &&& after == (AttemptRows {
        session: SessionRow {
            status: SessionStatus::Conflict,
            last_error: after.session.last_error,
            ..rows.session
        },
        segment: SegmentRow {
            status: SegmentStatus::Conflict,
            last_error: after.session.last_error,
            ..rows.segment
        },
        job: JobRow {
            status: JobStatus::Conflict,
            last_error: after.session.last_error,
            ..rows.job
        },
    })
}

/// The rows after the part was found ready in its submission.
pub open spec fn verified(rows: AttemptRows, now: i64) -> AttemptRows {
    AttemptRows {
        session: rows.session,
        segment: SegmentRow {
            status: SegmentStatus::RemoteVerified,
            cleanup_state: Some(CleanupState::Pending),
            verified_at: Some(now),
            last_error: None,
            ..rows.segment
        },
        job: JobRow { status: JobStatus::RemoteVerified, last_error: None, ..rows.job },
    }
}

/// The name of the file of a part on the server.
pub open spec fn remote_name(segment: SegmentRow) -> Seq<char> {
    match segment.remote_filename {
        Some(name) => name@,
        None => ""@,
    }
}

/// The number of a part as the remote submission counts it.
pub open spec fn place_of(segment: SegmentRow) -> nat {
    counted_as(segment.part_number) as nat
}

/// True when a session has no submission and none has been asked for.
pub open spec fn may_create(session: SessionRow) -> bool {
    session.aid is None && session.submit_state != SubmitState::Submitting && session.submit_state
        != SubmitState::Uncertain
}

/// What follows when the file of a part is on the server.
pub open spec fn submission_follows(
    rows: AttemptRows,
    after: AttemptRows,
    stage: AttemptStage,
    action: AttemptAction,
) -> bool {
    match rows.session.aid {
        Some(aid) => {
            &&& after == rows
            &&& stage == (AttemptStage::CheckingPlace { aid })
            &&& action == (AttemptAction::LookAtRemote { aid })
        },
        None => if may_create(rows.session) {
            after == rows && stage is Building && action is BuildSubmission
        } else {
            stopped_uncertain(rows, after, maybe_accepted()) && stage is Done && action is Finish
        },
    }
}

/// What follows a failure.
pub open spec fn failed(
    rows: AttemptRows,
    after: AttemptRows,
    stage: AttemptStage,
    action: AttemptAction,
    error: Seq<char>,
) -> bool {
    &&& after == rows
    &&& stage is Done
    &&& action matches AttemptAction::Fail(e) && e@ == error
}

/// What an event at a stage leads to.
pub open spec fn leads_to(
    rows: AttemptRows,
    stage: AttemptStage,
    event: AttemptEvent,
    now: i64,
    after: AttemptRows,
    next: AttemptStage,
    action: AttemptAction,
) -> bool {
    match (stage, event) {
        (AttemptStage::Begin, AttemptEvent::Started) => if is_verified(rows.segment.status) {
            after == rows && next is Done && action is CleanUp
        } else {
            after == upload_started(rows, now) && next is Initializing && action is Initialize
        },
        (AttemptStage::Initializing, AttemptEvent::Initialized(result)) => match result {
            Err(e) => failed(rows, after, next, action, e@),
            Ok(_) => if rows.segment.remote_filename is None {
                after == rows && next is Uploading && action is UploadFile
            } else {
                submission_follows(rows, after, next, action)
            },
        },
        (AttemptStage::Uploading, AttemptEvent::Uploaded(result)) => match result {
            Err(e) => failed(rows, after, next, action, e@),
            Ok((path, name)) => submission_follows(
                file_uploaded(rows, path, name, now),
                after,
                next,
                action,
            ),
        },
        (AttemptStage::Building, AttemptEvent::Built(result)) => match result {
            Err(e) => failed(rows, after, next, action, e@),
            Ok(_) => if may_create(rows.session) {
                &&& after == (AttemptRows {
                    session: SessionRow { submit_state: SubmitState::Submitting, ..rows.session },
                    segment: SegmentRow { status: SegmentStatus::Submitting, ..rows.segment },
                    job: rows.job,
                })
                &&& next is Creating
                &&& action is CreateSubmission
            } else {
                submission_follows(rows, after, next, action)
            },
        },
        (AttemptStage::Creating, AttemptEvent::Created(result)) => match result {
            Ok((aid, bvid)) => {
                &&& after == (AttemptRows {
                    session: SessionRow {
                        aid: Some(aid),
                        bvid,
                        submit_state: SubmitState::Created,
                        last_error: None,
                        ..rows.session
                    },
                    ..rows
                })
                &&& next == (AttemptStage::Awaiting { aid, look: 0 })
                &&& action == (AttemptAction::LookAtRemote { aid })
            },
            Err(CreationFailure::Request(e)) => {
                &&& stopped_uncertain(rows, after, maybe_created())
                &&& next is Done
                &&& action == AttemptAction::Fail(e)
            },
            Err(CreationFailure::Answer(e)) => failed(rows, after, next, action, e@),
        },
        (AttemptStage::CheckingPlace { aid }, AttemptEvent::RemoteSeen(result)) => match result {
            Err(e) => failed(rows, after, next, action, e@),
            Ok(RemotePartState::Missing) => {
                &&& after == rows
                &&& next == (AttemptStage::Appending { aid })
                &&& action == (AttemptAction::Append { aid })
            },
            Ok(RemotePartState::Conflict(other)) => stopped_conflict(rows, after, other@)
                && next is Done && action is Finish,
            Ok(_) => {
                &&& after == rows
                &&& next == (AttemptStage::Awaiting { aid, look: 0 })
                &&& action == (AttemptAction::LookAtRemote { aid })
            },
        },
        (AttemptStage::Appending { aid }, AttemptEvent::Appended(result)) => match result {
            Err(e) => failed(rows, after, next, action, e@),
            Ok(_) => {
                &&& after == rows
                &&& next == (AttemptStage::Awaiting { aid, look: 0 })
                &&& action == (AttemptAction::LookAtRemote { aid })
            },
        },
        (AttemptStage::Awaiting { aid, look }, AttemptEvent::RemoteSeen(result)) => match result {
            Ok(RemotePartState::MatchingReady) => after == verified(rows, now) && next is Done
                && action is CleanUp,
            Ok(RemotePartState::Conflict(other)) => {
                &&& after == rows
                &&& next matches AttemptStage::Confirming { error } && error@ == other_file(
                    place_of(rows.segment),
                    remote_name(rows.segment),
                    other@,
                )
                &&& action == (AttemptAction::LookAtRemote { aid })
            },
            Ok(_) => if look + 1 < VERIFY_ATTEMPTS {
                &&& after == rows
                &&& next == (AttemptStage::Awaiting { aid, look: (look + 1) as usize })
                &&& action == (AttemptAction::PauseThenLook { aid })
            } else {
                &&& after == rows
                &&& next matches AttemptStage::Confirming { error } && error@ == not_ready(
                    aid as nat,
                    place_of(rows.segment),
                )
                &&& action == (AttemptAction::PauseThenLook { aid })
            },
            Err(e) => {
                &&& after == rows
                &&& next == (AttemptStage::Confirming { error: e })
                &&& action == (AttemptAction::LookAtRemote { aid })
            },
        },
        (AttemptStage::Confirming { error }, AttemptEvent::RemoteSeen(result)) => match result {
            Ok(RemotePartState::Conflict(other)) => stopped_conflict(rows, after, other@)
                && next is Done && action is Finish,
            _ => failed(rows, after, next, action, error@),
        },
        _ => false,
    }
}

fn follow_submission(rows: &mut AttemptRows) -> (r: (AttemptStage, AttemptAction))
    ensures
        submission_follows(*old(rows), *final(rows), r.0, r.1),
{
    match submission_plan(&rows.session) {
        SubmissionPlan::CheckRemote(aid) => (
            AttemptStage::CheckingPlace { aid },
            AttemptAction::LookAtRemote { aid },
        ),
        SubmissionPlan::Create => (AttemptStage::Building, AttemptAction::BuildSubmission),
        SubmissionPlan::Stop(message) => {
            mark_submission_uncertain(
                &mut rows.session,
                &mut rows.segment,
                &mut rows.job,
                message,
            );
            (AttemptStage::Done, AttemptAction::Finish)
        },
    }
}

fn stop_for_conflict(rows: &mut AttemptRows, message: String)
    ensures
        *final(rows) == (AttemptRows {
            session: SessionRow {
                status: SessionStatus::Conflict,
                last_error: Some(message),
                ..old(rows).session
            },
            segment: SegmentRow {
                status: SegmentStatus::Conflict,
                last_error: Some(message),
                ..old(rows).segment
            },
            job: JobRow {
                status: JobStatus::Conflict,
                last_error: Some(message),
                ..old(rows).job
            },
        }),
{
    mark_conflict(&mut rows.session, &mut rows.segment, &mut rows.job, message);
}

/// Carries an attempt on: takes note of an event at `now`, and tells what to do next.
pub fn advance(rows: &mut AttemptRows, stage: AttemptStage, event: AttemptEvent, now: i64) -> (r: (
    AttemptStage,
    AttemptAction,
))
    requires
        fits(stage, event),
    ensures
        leads_to(*old(rows), stage, event, now, *final(rows), r.0, r.1),
{
    let name = match &rows.segment.remote_filename {
        Some(name) => name.clone(),
        None => "".to_owned(),
    };
    let part_number: i64 = rows.segment.part_number;
    let place: usize = remote_number(part_number);
    match (stage, event) {
        (AttemptStage::Begin, AttemptEvent::Started) => {
            if rows.segment.status == SegmentStatus::RemoteVerified || rows.segment.status
                == SegmentStatus::CleanupPending {
                return (AttemptStage::Done, AttemptAction::CleanUp);
            }
            mark_uploading(&mut rows.segment, &mut rows.job, now);
            (AttemptStage::Initializing, AttemptAction::Initialize)
        },
        (AttemptStage::Initializing, AttemptEvent::Initialized(result)) => match result {
            Err(e) => (AttemptStage::Done, AttemptAction::Fail(e)),
            Ok(_) => if rows.segment.remote_filename.is_none() {
                (AttemptStage::Uploading, AttemptAction::UploadFile)
            } else {
                follow_submission(rows)
            },
        },
        (AttemptStage::Uploading, AttemptEvent::Uploaded(result)) => match result {
            Err(e) => (AttemptStage::Done, AttemptAction::Fail(e)),
            Ok((path, filename)) => {
                save_uploaded_file(&mut rows.segment, path, filename, now);
                follow_submission(rows)
            },
        },
        (AttemptStage::Building, AttemptEvent::Built(result)) => match result {
            Err(e) => (AttemptStage::Done, AttemptAction::Fail(e)),
            Ok(_) => {
                if rows.session.aid.is_none() && rows.session.submit_state
                    != SubmitState::Submitting && rows.session.submit_state
                    != SubmitState::Uncertain {
                    mark_submitting(&mut rows.session, &mut rows.segment);
                    return (AttemptStage::Creating, AttemptAction::CreateSubmission);
                }
                follow_submission(rows)
            },
        },
        (AttemptStage::Creating, AttemptEvent::Created(result)) => match result {
            Ok((aid, bvid)) => {
                save_remote_ids(&mut rows.session, aid, bvid);
                (AttemptStage::Awaiting { aid, look: 0 }, AttemptAction::LookAtRemote { aid })
            },
            Err(CreationFailure::Request(e)) => {
                mark_submission_uncertain(
                    &mut rows.session,
                    &mut rows.segment,
                    &mut rows.job,
                    creation_failed(),
                );
                (AttemptStage::Done, AttemptAction::Fail(e))
            },
            Err(CreationFailure::Answer(e)) => (AttemptStage::Done, AttemptAction::Fail(e)),
        },
        (AttemptStage::CheckingPlace { aid }, AttemptEvent::RemoteSeen(result)) => match result {
            Err(e) => (AttemptStage::Done, AttemptAction::Fail(e)),
            Ok(state) => match remote_decision(&state, part_number, name.as_str()) {
                RemoteDecision::Append => (
                    AttemptStage::Appending { aid },
                    AttemptAction::Append { aid },
                ),
                RemoteDecision::Await => (
                    AttemptStage::Awaiting { aid, look: 0 },
                    AttemptAction::LookAtRemote { aid },
                ),
                RemoteDecision::Stop(message) => {
                    stop_for_conflict(rows, message);
                    (AttemptStage::Done, AttemptAction::Finish)
                },
            },
        },
        (AttemptStage::Appending { aid }, AttemptEvent::Appended(result)) => match result {
            Err(e) => (AttemptStage::Done, AttemptAction::Fail(e)),
            Ok(_) => (
                AttemptStage::Awaiting { aid, look: 0 },
                AttemptAction::LookAtRemote { aid },
            ),
        },
        (AttemptStage::Awaiting { aid, look }, AttemptEvent::RemoteSeen(result)) => match result {
            Err(e) => (
                AttemptStage::Confirming { error: e },
                AttemptAction::LookAtRemote { aid },
            ),
            Ok(state) => match await_decision(&state, look, aid, place, name.as_str()) {
                AwaitDecision::Ready => {
                    mark_remote_verified(&mut rows.segment, &mut rows.job, now);
                    (AttemptStage::Done, AttemptAction::CleanUp)
                },
                AwaitDecision::LookAgain => (
                    AttemptStage::Awaiting { aid, look: look + 1 },
                    AttemptAction::PauseThenLook { aid },
                ),
                AwaitDecision::GiveUp(message) => (
                    AttemptStage::Confirming { error: message },
                    AttemptAction::LookAtRemote { aid },
                ),
                AwaitDecision::TimedOut(message) => (
                    AttemptStage::Confirming { error: message },
                    AttemptAction::PauseThenLook { aid },
                ),
            },
        },
        (AttemptStage::Confirming { error }, AttemptEvent::RemoteSeen(result)) => {
            match after_await_failed(&result, part_number, name.as_str()) {
                Some(message) => {
                    stop_for_conflict(rows, message);
                    (AttemptStage::Done, AttemptAction::Finish)
                },
                None => (AttemptStage::Done, AttemptAction::Fail(error)),
            }
        },
        _ => (AttemptStage::Done, AttemptAction::Finish),
    }
}

/// A part counts as verified only because it was seen ready in its submission; and the local
/// files of a part are dealt with only once it counts as verified.
pub proof fn law_verified_before_cleanup(
    rows: AttemptRows,
    stage: AttemptStage,
    event: AttemptEvent,
    now: i64,
    after: AttemptRows,
    next: AttemptStage,
    action: AttemptAction,
)
    requires
        leads_to(rows, stage, event, now, after, next, action),
    ensures
        is_verified(after.segment.status) && !is_verified(rows.segment.status) ==> event
            == AttemptEvent::RemoteSeen(Ok(RemotePartState::MatchingReady)),
        action is CleanUp ==> is_verified(after.segment.status),
{
}

/// A submission is created only for a session that has none and for which none has been asked;
/// and by then the rows say that it is being asked for, so that no later attempt asks again.
pub proof fn law_submission_created_once(
    rows: AttemptRows,
    stage: AttemptStage,
    event: AttemptEvent,
    now: i64,
    after: AttemptRows,
    next: AttemptStage,
    action: AttemptAction,
)
    requires
        leads_to(rows, stage, event, now, after, next, action),
    ensures
        action is CreateSubmission ==> may_create(rows.session) && !may_create(after.session),
        !may_create(rows.session) ==> !may_create(after.session),
        !(event is Created) ==> after.session.aid == rows.session.aid,
{
}

/// An attempt on a session whose submission is uncertain neither creates nor appends anything: as
/// soon as the file is on the server, it stops.
pub proof fn law_uncertain_submission_stops(
    rows: AttemptRows,
    after: AttemptRows,
    next: AttemptStage,
    action: AttemptAction,
)
    requires
        rows.session.aid is None,
        rows.session.submit_state == SubmitState::Submitting || rows.session.submit_state
            == SubmitState::Uncertain,
        submission_follows(rows, after, next, action),
    ensures
        next is Done,
        action is Finish,
        after.session.status == SessionStatus::SubmissionUncertain,
        after.segment.status == SegmentStatus::SubmissionUncertain,
{
}

/// Whatever happens to a part, it stays the same part of the same session with the same files, and
/// its job stays its job.
pub proof fn law_attempt_keeps_identity(
    rows: AttemptRows,
    stage: AttemptStage,
    event: AttemptEvent,
    now: i64,
    after: AttemptRows,
    next: AttemptStage,
    action: AttemptAction,
)
    requires
        leads_to(rows, stage, event, now, after, next, action),
    ensures
        after.session == (SessionRow {
            aid: after.session.aid,
            bvid: after.session.bvid,
            submit_state: after.session.submit_state,
            status: after.session.status,
            last_error: after.session.last_error,
            ..rows.session
        }),
        after.segment == (SegmentRow {
            status: after.segment.status,
            cleanup_state: after.segment.cleanup_state,
            uploaded_filename: after.segment.uploaded_filename,
            remote_filename: after.segment.remote_filename,
            next_retry_at: after.segment.next_retry_at,
            last_error: after.segment.last_error,
            uploaded_at: after.segment.uploaded_at,
            verified_at: after.segment.verified_at,
            ..rows.segment
        }),
        after.job == (JobRow {
            status: after.job.status,
            attempts: after.job.attempts,
            locked_at: after.job.locked_at,
            next_attempt_at: after.job.next_attempt_at,
            last_error: after.job.last_error,
            ..rows.job
        }),
        !(event is Uploaded) ==> after.segment.remote_filename == rows.segment.remote_filename
            && after.segment.uploaded_filename == rows.segment.uploaded_filename
            && after.segment.uploaded_at == rows.segment.uploaded_at,
        !(event is Created) ==> after.session.aid == rows.session.aid && after.session.bvid
            == rows.session.bvid,
        !(event is RemoteSeen) ==> after.segment.cleanup_state == rows.segment.cleanup_state
            && after.segment.verified_at == rows.segment.verified_at,
        !(event is Started) ==> after.job.attempts == rows.job.attempts && after.job.locked_at
            == rows.job.locked_at,
{
}

/// An attempt begins by noting that it runs; a part that was already found at the service goes
/// straight to its cleanup.
pub proof fn law_attempt_begins(
    rows: AttemptRows,
    now: i64,
    after: AttemptRows,
    next: AttemptStage,
    action: AttemptAction,
)
    requires
        leads_to(rows, AttemptStage::Begin, AttemptEvent::Started, now, after, next, action),
    ensures
        rows.segment.status == SegmentStatus::RemoteVerified || rows.segment.status
            == SegmentStatus::CleanupPending ==> action is CleanUp && after == rows,
        rows.segment.status != SegmentStatus::RemoteVerified && rows.segment.status
            != SegmentStatus::CleanupPending ==> {
            &&& action is Initialize
            &&& after.segment.status == SegmentStatus::Uploading
            &&& after.segment.last_error is None && after.segment.next_retry_at is None
            &&& after.job.status == JobStatus::Uploading
            &&& after.job.locked_at == Some(now)
            &&& after.job.last_error is None && after.job.next_attempt_at is None
            &&& rows.job.attempts < i64::MAX ==> after.job.attempts == rows.job.attempts + 1
            &&& after.session == rows.session
        },
{
}

/// A file is uploaded once: a part whose file the service has is only submitted. What an upload
/// gave is noted with its time.
pub proof fn law_file_uploaded_once(
    rows: AttemptRows,
    stage: AttemptStage,
    event: AttemptEvent,
    now: i64,
    after: AttemptRows,
    next: AttemptStage,
    action: AttemptAction,
)
    requires
        leads_to(rows, stage, event, now, after, next, action),
    ensures
        action is UploadFile <==> (event matches AttemptEvent::Initialized(Ok(_))
            && rows.segment.remote_filename is None),
        event matches AttemptEvent::Uploaded(Ok((path, name))) ==> {
            &&& after.segment.remote_filename == Some(name)
            &&& after.segment.uploaded_filename == Some(path)
            &&& after.segment.uploaded_at == Some(now)
        },
        action is UploadFile ==> after == rows,
{
}

/// A submitted part goes into the submission of its session where there is one, and makes a new one
/// only where none was ever asked for.
pub proof fn law_part_goes_into_its_submission(
    rows: AttemptRows,
    after: AttemptRows,
    next: AttemptStage,
    action: AttemptAction,
)
    requires
        submission_follows(rows, after, next, action),
    ensures
        rows.session.aid matches Some(aid) ==> action == (AttemptAction::LookAtRemote { aid })
            && after == rows,
        rows.session.aid is None && rows.session.submit_state == SubmitState::New
            ==> action is BuildSubmission && after == rows,
        rows.session.aid is None && rows.session.submit_state == SubmitState::Created
            ==> action is BuildSubmission && after == rows,
{
}

/// A submission that was made is kept with the session, and the part is then looked for in it.
pub proof fn law_made_submission_is_kept(
    rows: AttemptRows,
    result: Result<(u64, Option<String>), CreationFailure>,
    now: i64,
    after: AttemptRows,
    next: AttemptStage,
    action: AttemptAction,
)
    requires
        leads_to(
            rows,
            AttemptStage::Creating,
            AttemptEvent::Created(result),
            now,
            after,
            next,
            action,
        ),
    ensures
        result matches Ok((aid, bvid)) ==> {
            &&& after.session.aid == Some(aid)
            &&& after.session.bvid == bvid
            &&& after.session.submit_state == SubmitState::Created
            &&& after.segment == rows.segment && after.job == rows.job
            &&& action == (AttemptAction::LookAtRemote { aid })
        },
        result matches Err(CreationFailure::Request(e)) ==> {
            &&& after.session.submit_state == SubmitState::Uncertain
            &&& after.segment.status == SegmentStatus::SubmissionUncertain
            &&& action == AttemptAction::Fail(e)
        },
        result matches Err(CreationFailure::Answer(_)) ==> after == rows && action is Fail,
{
}

/// What is seen at the service decides: an empty place is filled, a place that holds the part is
/// waited for until it is ready, and one that holds another file stops the part.
pub proof fn law_remote_sight_decides(
    rows: AttemptRows,
    stage: AttemptStage,
    seen: Result<RemotePartState, String>,
    now: i64,
    after: AttemptRows,
    next: AttemptStage,
    action: AttemptAction,
)
    requires
        leads_to(rows, stage, AttemptEvent::RemoteSeen(seen), now, after, next, action),
    ensures
        action is Append <==> stage is CheckingPlace && (seen matches Ok(state)
            && state is Missing),
        stage matches AttemptStage::CheckingPlace { aid } ==> (action is Append ==> action == (
        AttemptAction::Append { aid })),
        stage is Awaiting && (seen matches Ok(state) && state is MatchingReady) ==> {
            &&& action is CleanUp
            &&& after.segment.status == SegmentStatus::RemoteVerified
            &&& after.segment.cleanup_state == Some(CleanupState::Pending)
            &&& after.segment.verified_at == Some(now)
            &&& after.segment.last_error is None
            &&& after.job.status == JobStatus::RemoteVerified
            &&& after.session == rows.session
        },
        (stage is CheckingPlace || stage is Confirming) && (seen matches Ok(state)
            && state is Conflict) ==> {
            &&& action is Finish
            &&& after.session.status == SessionStatus::Conflict
            &&& after.segment.status == SegmentStatus::Conflict
            &&& after.job.status == JobStatus::Conflict
            &&& after.segment.last_error is Some
        },
        action is CleanUp ==> stage is Awaiting && (seen matches Ok(state)
            && state is MatchingReady),
        after.segment.status == SegmentStatus::Conflict && rows.segment.status
            != SegmentStatus::Conflict ==> (seen matches Ok(state) && state is Conflict),
{
}

/// A part is looked for a limited number of times: every look brings the end nearer.
pub proof fn law_looks_come_to_an_end(
    rows: AttemptRows,
    aid: u64,
    look: usize,
    seen: Result<RemotePartState, String>,
    now: i64,
    after: AttemptRows,
    next: AttemptStage,
    action: AttemptAction,
)
    requires
        leads_to(
            rows,
            AttemptStage::Awaiting { aid, look },
            AttemptEvent::RemoteSeen(seen),
            now,
            after,
            next,
            action,
        ),
    ensures
        next matches AttemptStage::Awaiting { aid: a, look: n } ==> a == aid && n == look + 1 && n
            < 30,
        next is Awaiting || next is Confirming || next is Done,
        (seen matches Ok(state) && (state is Missing || state is MatchingProcessing)) && look + 1
            < 30 ==> next is Awaiting && action == (AttemptAction::PauseThenLook { aid }),
{
}

/// A step that failed leaves everything as it was and ends the attempt.
pub proof fn law_failure_changes_nothing(
    rows: AttemptRows,
    stage: AttemptStage,
    event: AttemptEvent,
    now: i64,
    after: AttemptRows,
    next: AttemptStage,
    action: AttemptAction,
)
    requires
        leads_to(rows, stage, event, now, after, next, action),
    ensures
        event matches AttemptEvent::Initialized(Err(e)) ==> after == rows && next is Done && (
        action matches AttemptAction::Fail(m) && m@ == e@),
        event matches AttemptEvent::Uploaded(Err(e)) ==> after == rows && next is Done && (
        action matches AttemptAction::Fail(m) && m@ == e@),
        event matches AttemptEvent::Built(Err(e)) ==> after == rows && next is Done && (
        action matches AttemptAction::Fail(m) && m@ == e@),
        event matches AttemptEvent::Appended(Err(e)) ==> after == rows && next is Done && (
        action matches AttemptAction::Fail(m) && m@ == e@),
        event matches AttemptEvent::Initialized(Ok(_)) ==> !(action is Fail),
        event matches AttemptEvent::Uploaded(Ok(_)) ==> !(action is Fail),
        event matches AttemptEvent::Built(Ok(_)) ==> !(action is Fail),
        event matches AttemptEvent::Appended(Ok(_)) ==> action is LookAtRemote && after == rows,
        fits(stage, event),
{
}

/// An attempt always waits for what it has just asked for, in the submission it asked about.
pub proof fn law_attempt_waits_for_its_answer(
    rows: AttemptRows,
    stage: AttemptStage,
    event: AttemptEvent,
    now: i64,
    after: AttemptRows,
    next: AttemptStage,
    action: AttemptAction,
)
    requires
        leads_to(rows, stage, event, now, after, next, action),
    ensures
        action is Initialize <==> next is Initializing,
        action is UploadFile <==> next is Uploading,
        action is BuildSubmission <==> next is Building,
        action is CreateSubmission <==> next is Creating,
        action is Append <==> next is Appending,
        action is LookAtRemote || action is PauseThenLook <==> next is CheckingPlace
            || next is Awaiting || next is Confirming,
        action is Finish || action is Fail || action is CleanUp <==> next is Done,
        (action matches AttemptAction::LookAtRemote { aid }) ==> match next {
            AttemptStage::CheckingPlace { aid: a } => action == (AttemptAction::LookAtRemote {
                aid: a,
            }),
            AttemptStage::Awaiting { aid: a, .. } => action == (AttemptAction::LookAtRemote {
                aid: a,
            }),
            _ => true,
        },
        next matches AttemptStage::CheckingPlace { aid } ==> rows.session.aid == Some(aid),
        action is CreateSubmission ==> after.session.submit_state == SubmitState::Submitting
            && after.segment.status == SegmentStatus::Submitting,
{
}

} // verus!
