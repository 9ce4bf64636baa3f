//! One turn of the worker on a part: what is saved, what is asked of the service, and what the
//! answers lead to.

use crate::bilibili_queue::{BilibiliSegmentState, BilibiliSegmentTask};
use crate::bilibili_worker::{
    after_append, after_create, after_recovery_lookup, after_upload, after_verification,
    append_noted, changed_part, check_upload_file, create_noted, file_checked, may_advance,
    recovery_lookup, recovery_noted, start_work, submission_call, submission_started, upload_noted,
    verification_lookup, verification_noted, BilibiliSubmissionRef, PartChange, RemoteLookup,
    SubmissionCall, WorkAction, WorkItem,
};
use crate::recordings::FileFacts;
use vstd::prelude::*;

verus! {

/// How far a turn has come.
#[derive(Debug)]
pub enum PartStage {
    /// The login is being read.
    Begin,
    /// The file is being looked at.
    CheckingFile,
    /// The file is being uploaded.
    Uploading,
    /// The part is being appended to the submission.
    Appending { aid: u64, filename: String },
    /// Appending failed; the submission is being looked at.
    ConfirmingAppend { error: String },
    /// The submission is being created.
    Creating,
    /// The outcome of an interrupted submission is being looked for.
    Recovering,
    /// The part is being looked for in the submission.
    Verifying,
    /// The turn is over.
    Done,
}

/// What happened in a turn.
#[derive(Debug)]
pub enum PartEvent {
    /// The login was read, or why there is none.
    LoginRead(Result<(), String>),
    FileRead(Result<FileFacts, String>),
    /// The file was uploaded under this name, or why not.
    Uploaded(Result<String, String>),
    Appended(Result<(), String>),
    Created(Result<BilibiliSubmissionRef, String>),
    /// Whether the submission holds the file, or why that cannot be told.
    LookedUp(Result<bool, String>),
}

/// What a turn does next.
#[derive(Debug)]
pub enum PartAction {
    ReadFile,
    UploadFile,
    Append { aid: u64, filename: String },
    Create { filename: String },
    LookUp { aid: u64, filename: String },
    /// Nothing; the turn is over.
    Finish,
    /// Nothing; the turn failed.
    Fail(String),
}

/// A step of a turn. The change is saved before the action is begun.
#[derive(Debug)]
pub struct PartStep {
    pub change: Option<PartChange>,
    pub stage: PartStage,
    pub action: PartAction,
}

/// An event is one that can happen at a stage.
pub open spec fn fits(stage: PartStage, event: PartEvent) -> bool {
    match stage {
        PartStage::Begin => event is LoginRead,
        PartStage::CheckingFile => event is FileRead,
        PartStage::Uploading => event is Uploaded,
        PartStage::Appending { .. } => event is Appended,
        PartStage::ConfirmingAppend { .. } => event is LookedUp,
        PartStage::Creating => event is Created,
        PartStage::Recovering => event is LookedUp,
        PartStage::Verifying => event is LookedUp,
        PartStage::Done => false,
    }
}

/// A step that ends a turn, with a change or without.
pub open spec fn ends_with(step: PartStep, change: Option<PartChange>) -> bool {
    step.change == change && step.stage is Done && step.action is Finish
}

/// A step that ends a turn with a failure; nothing is changed.
pub open spec fn fails_with(step: PartStep, message: Seq<char>) -> bool {
    step.change is None && step.stage is Done && (step.action matches PartAction::Fail(m) && m@
        == message)
}

/// The change by which a part only gets another state.
pub open spec fn state_set(
    state: BilibiliSegmentState,
    error: Option<String>,
    next_retry_at: Option<i64>,
) -> PartChange {
    PartChange::SetState { state, error, next_retry_at }
}

/// The step with which an uploaded part is submitted: that it is being submitted is saved first.
pub open spec fn submits(work: WorkItem, step: PartStep) -> bool {
    match work.segment.remote_filename {
        None => fails_with(step, "FILE_UPLOADED 状态缺少 remote_filename。"@),
        Some(filename) => {
            &&& step.change == Some(state_set(BilibiliSegmentState::Submitting, None, None))
            &&& match work.session.aid {
                Some(aid) => step.stage == (PartStage::Appending { aid, filename }) && step.action
                    == (PartAction::Append { aid, filename }),
                None => step.stage is Creating && step.action == (PartAction::Create { filename }),
            }
        },
    }
}

/// The step after a submission was interrupted: the part is looked for, and never submitted again.
pub open spec fn recovers(work: WorkItem, step: PartStep) -> bool {
    match work.segment.remote_filename {
        None => {
            &&& step.change matches Some(PartChange::Conflict { error })
            &&& error@ == "SUBMITTING 状态缺少 remote_filename。"@
            &&& step.stage is Done && step.action is Finish
        },
        Some(filename) => match work.session.aid {
            None => {
                &&& step.change matches Some(PartChange::Uncertain { error })
                &&& error@
                    == "App 在首次投稿请求期间中断且 aid 尚未持久化；为避免重复投稿，已停止自动重试。"@
                &&& step.stage is Done && step.action is Finish
            },
            Some(aid) => step.change is None && step.stage is Recovering && step.action == (
            PartAction::LookUp { aid, filename }),
        },
    }
}

/// The step that looks for a part that was submitted.
pub open spec fn verifies(work: WorkItem, step: PartStep) -> bool {
    match work.session.aid {
        None => fails_with(step, "REMOTE_PROCESSING 状态缺少 aid。"@),
        Some(aid) => match work.segment.remote_filename {
            None => fails_with(step, "REMOTE_PROCESSING 状态缺少 remote_filename。"@),
            Some(filename) => step.change is None && step.stage is Verifying && step.action == (
            PartAction::LookUp { aid, filename }),
        },
    }
}

/// The first step of a turn, once the login was read.
pub open spec fn begins(work: WorkItem, login: Result<(), String>, step: PartStep) -> bool {
    let state = work.segment.state;
    match login {
        Err(error) => ends_with(
            step,
            Some(state_set(BilibiliSegmentState::AuthRequired, Some(error), None)),
        ),
        Ok(_) => if state == BilibiliSegmentState::AuthRequired {
            ends_with(
                step,
                Some(
                    state_set(
                        if work.segment.remote_filename is Some {
                            BilibiliSegmentState::FileUploaded
                        } else {
                            BilibiliSegmentState::ReadyToUpload
                        },
                        None,
                        Some(0),
                    ),
                ),
            )
        } else if state == BilibiliSegmentState::ReadyToUpload || state
            == BilibiliSegmentState::UploadingFile || state == BilibiliSegmentState::RetryPending {
            step.change is None && step.stage is CheckingFile && step.action is ReadFile
        } else if state == BilibiliSegmentState::FileUploaded {
            submits(work, step)
        } else if state == BilibiliSegmentState::Submitting {
            recovers(work, step)
        } else if state == BilibiliSegmentState::RemoteProcessing {
            verifies(work, step)
        } else {
            ends_with(step, None)
        },
    }
}

/// What an event at a stage leads to.
pub open spec fn leads_to(
    work: WorkItem,
    stage: PartStage,
    event: PartEvent,
    now: i64,
    step: PartStep,
) -> bool {
    let part = work.segment;
    match (stage, event) {
        (PartStage::Begin, PartEvent::LoginRead(login)) => begins(work, login, step),
        (PartStage::CheckingFile, PartEvent::FileRead(facts)) => {
            &&& step.change matches Some(change)
            &&& file_checked(part, facts, change)
            &&& if change is SetState {
                step.stage is Uploading && step.action is UploadFile
            } else {
                step.stage is Done && step.action is Finish
            }
        },
        (PartStage::Uploading, PartEvent::Uploaded(result)) => {
            &&& step.change matches Some(change)
            &&& upload_noted(part, result, now, change)
            &&& step.stage is Done && step.action is Finish
        },
        (PartStage::Appending { aid, filename }, PartEvent::Appended(result)) => match result {
            Ok(_) => {
                &&& step.change matches Some(change)
                &&& append_noted(result, Ok(true), now, change)
                &&& step.stage is Done && step.action is Finish
            },
            Err(error) => step.change is None && step.stage == (PartStage::ConfirmingAppend {
                error,
            }) && step.action == (PartAction::LookUp { aid, filename }),
        },
        (PartStage::ConfirmingAppend { error }, PartEvent::LookedUp(found)) => {
            &&& step.change matches Some(change)
            &&& append_noted(Err(error), found, now, change)
            &&& step.stage is Done && step.action is Finish
        },
        (PartStage::Creating, PartEvent::Created(result)) => {
            &&& step.change matches Some(change)
            &&& create_noted(result, now, change)
            &&& step.stage is Done && step.action is Finish
        },
        (PartStage::Recovering, PartEvent::LookedUp(found)) => {
            &&& step.change matches Some(change)
            &&& recovery_noted(part, found, now, change)
            &&& step.stage is Done && step.action is Finish
        },
        (PartStage::Verifying, PartEvent::LookedUp(found)) => {
            &&& step.change matches Some(change)
            &&& verification_noted(part, found, now, change)
            &&& step.stage is Done && step.action is Finish
        },
        _ => false,
    }
}

fn finish(change: Option<PartChange>) -> (r: PartStep)
    ensures
        ends_with(r, change),
{
    PartStep { change, stage: PartStage::Done, action: PartAction::Finish }
}

fn fail(message: String) -> (r: PartStep)
    ensures
        fails_with(r, message@),
{
    PartStep { change: None, stage: PartStage::Done, action: PartAction::Fail(message) }
}

fn look_up(stage: PartStage, aid: u64, filename: String) -> (r: PartStep)
    ensures
        r.change is None,
        r.stage == stage,
        r.action == (PartAction::LookUp { aid, filename }),
{
    PartStep { change: None, stage, action: PartAction::LookUp { aid, filename } }
}

/// Begins a turn on a part, once the login was read.
fn begin(work: &WorkItem, login: Result<(), String>) -> (r: PartStep)
    ensures
        begins(*work, login, r),
{
    match start_work(&work.segment, login) {
        WorkAction::Change(change) => finish(Some(change)),
        WorkAction::UploadFile => PartStep {
            change: None,
            stage: PartStage::CheckingFile,
            action: PartAction::ReadFile,
        },
        WorkAction::SubmitPart => match submission_call(&work.session, &work.segment) {
            Err(message) => fail(message),
            Ok(SubmissionCall::Append { aid, filename }) => PartStep {
                change: Some(submission_started()),
                stage: PartStage::Appending { aid, filename: filename.clone() },
                action: PartAction::Append { aid, filename },
            },
            Ok(SubmissionCall::Create { filename }) => PartStep {
                change: Some(submission_started()),
                stage: PartStage::Creating,
                action: PartAction::Create { filename },
            },
        },
        WorkAction::RecoverSubmission => match recovery_lookup(&work.session, &work.segment) {
            RemoteLookup::Settled(change) => finish(Some(change)),
            RemoteLookup::Find { aid, filename } => look_up(PartStage::Recovering, aid, filename),
        },
        WorkAction::VerifyRemote => match verification_lookup(&work.session, &work.segment) {
            Err(message) => fail(message),
            Ok((aid, filename)) => look_up(PartStage::Verifying, aid, filename),
        },
        WorkAction::Nothing => finish(None),
    }
}

/// Looks at the file of a part before it is uploaded.
fn check_file(part: &BilibiliSegmentTask, facts: &Result<FileFacts, String>) -> (r: PartStep)
    ensures
        r.change matches Some(change) && file_checked(*part, *facts, change) && if change
            is SetState {
            r.stage is Uploading && r.action is UploadFile
        } else {
            r.stage is Done && r.action is Finish
        },
{
    let change = check_upload_file(part, facts);
    let uploads = matches!(&change, PartChange::SetState { .. });
    if uploads {
        PartStep {
            change: Some(change),
            stage: PartStage::Uploading,
            action: PartAction::UploadFile,
        }
    } else {
        finish(Some(change))
    }
}

/// Carries a turn on a part further: takes note of an event at `now`, and tells what is saved and
/// what is done next.
pub fn advance(work: &WorkItem, stage: PartStage, event: PartEvent, now: i64) -> (r: PartStep)
    requires
        fits(stage, event),
    ensures
        leads_to(*work, stage, event, now, r),
{
    let part = &work.segment;
    match (stage, event) {
        (PartStage::Begin, PartEvent::LoginRead(login)) => begin(work, login),
        (PartStage::CheckingFile, PartEvent::FileRead(facts)) => check_file(part, &facts),
        (PartStage::Uploading, PartEvent::Uploaded(result)) => finish(
            Some(after_upload(part, result, now)),
        ),
        (PartStage::Appending { aid, filename }, PartEvent::Appended(result)) => match result {
            Ok(_) => finish(Some(after_append(Ok(()), &Ok(true), now))),
            Err(error) => look_up(PartStage::ConfirmingAppend { error }, aid, filename),
        },
        (PartStage::ConfirmingAppend { error }, PartEvent::LookedUp(found)) => finish(
            Some(after_append(Err(error), &found, now)),
        ),
        (PartStage::Creating, PartEvent::Created(result)) => finish(
            Some(after_create(result, now)),
        ),
        (PartStage::Recovering, PartEvent::LookedUp(found)) => finish(
            Some(after_recovery_lookup(part, found, now)),
        ),
        (PartStage::Verifying, PartEvent::LookedUp(found)) => finish(
            Some(after_verification(part, found, now)),
        ),
        (stage, event) => {
            assert(!fits(stage, event));
            finish(None)
        },
    }
}

/// A submission is never created or appended to unless it was saved before that this is being done,
/// and only for a part whose upload was saved.
pub proof fn law_submission_saved_first(
    work: WorkItem,
    stage: PartStage,
    event: PartEvent,
    now: i64,
    step: PartStep,
)
    requires
        leads_to(work, stage, event, now, step),
        step.action is Append || step.action is Create,
    ensures
        step.change == Some(state_set(BilibiliSegmentState::Submitting, None, None)),
        work.segment.state == BilibiliSegmentState::FileUploaded,
        step.action is Create ==> work.session.aid is None,
{
}

/// A part whose submission was interrupted is never submitted again, whatever happens in the turn.
pub proof fn law_interrupted_part_not_resubmitted(
    work: WorkItem,
    stage: PartStage,
    event: PartEvent,
    now: i64,
    step: PartStep,
)
    requires
        work.segment.state == BilibiliSegmentState::Submitting,
        leads_to(work, stage, event, now, step),
    ensures
        !(step.action is Append) && !(step.action is Create),
{
}

/// A file is uploaded only right after it was found to be there in the size that was queued.
pub proof fn law_upload_follows_check(
    work: WorkItem,
    stage: PartStage,
    event: PartEvent,
    now: i64,
    step: PartStep,
)
    requires
        leads_to(work, stage, event, now, step),
        step.action is UploadFile,
    ensures
        event matches PartEvent::FileRead(Ok(facts)) && facts.is_file && facts.len > 0 && facts.len
            == work.segment.file_size,
        step.change == Some(state_set(BilibiliSegmentState::UploadingFile, None, None)),
{
}

/// A part that was taken up is carried on: by the upload of its file, by its submission, by a look
/// for it, or by a change that is saved. Without a login nothing is done but to note that.
pub proof fn law_work_is_carried_on(
    work: WorkItem,
    login: Result<(), String>,
    now: i64,
    step: PartStep,
)
    requires
        leads_to(work, PartStage::Begin, PartEvent::LoginRead(login), now, step),
    ensures
        login matches Err(e) ==> (step.change matches Some(change) && changed_part(
            work.segment@,
            change,
        ).state == BilibiliSegmentState::AuthRequired && changed_part(
            work.segment@,
            change,
        ).last_error == Some(e@)) && step.action is Finish,
        login is Ok && (work.segment.state == BilibiliSegmentState::ReadyToUpload
            || work.segment.state == BilibiliSegmentState::UploadingFile || work.segment.state
            == BilibiliSegmentState::RetryPending) ==> step.action is ReadFile && step.change is None,
        login is Ok && work.segment.state == BilibiliSegmentState::AuthRequired ==> (
        step.change matches Some(change) && may_advance(changed_part(work.segment@, change), now)
            && changed_part(work.segment@, change).state != BilibiliSegmentState::AuthRequired),
        login is Ok && work.segment.state == BilibiliSegmentState::FileUploaded ==> (
        work.segment.remote_filename matches Some(name) ==> match work.session.aid {
            Some(aid) => step.action == (PartAction::Append { aid, filename: name }),
            None => step.action == (PartAction::Create { filename: name }),
        }),
        login is Ok && (work.segment.state == BilibiliSegmentState::RemoteProcessing
            || work.segment.state == BilibiliSegmentState::Submitting) ==> match (
            work.session.aid,
            work.segment.remote_filename,
        ) {
            (Some(aid), Some(filename)) => step.action == (PartAction::LookUp { aid, filename })
                && step.change is None,
            _ => true,
        },
        login is Ok && work.segment.state == BilibiliSegmentState::Submitting
            && work.segment.remote_filename is Some && work.session.aid is None ==> (
        step.change matches Some(change) && changed_part(work.segment@, change).state
            == BilibiliSegmentState::SubmissionUncertain),
{
}

/// What came of an upload, of a submission or of a look is saved, and then the turn is over; after an
/// append that failed, the submission is looked at first.
pub proof fn law_outcome_is_saved(
    work: WorkItem,
    stage: PartStage,
    event: PartEvent,
    now: i64,
    step: PartStep,
)
    requires
        leads_to(work, stage, event, now, step),
    ensures
        event matches PartEvent::Uploaded(Ok(name)) ==> step.action is Finish && (
        step.change matches Some(change) && changed_part(work.segment@, change).remote_filename
            == Some(name@)),
        event matches PartEvent::Uploaded(Err(e)) ==> step.action is Finish && (
        step.change matches Some(change) && changed_part(work.segment@, change).last_error == Some(
            e@,
        ) && changed_part(work.segment@, change).state == BilibiliSegmentState::RetryPending),
        event matches PartEvent::Created(Ok(remote)) ==> step.action is Finish && (
        step.change matches Some(change) && change matches PartChange::Created { aid, .. } && aid
            == remote.aid),
        event matches PartEvent::Created(Err(_)) ==> step.action is Finish && (
        step.change matches Some(change) && changed_part(work.segment@, change).state
            == BilibiliSegmentState::SubmissionUncertain),
        event matches PartEvent::Appended(Ok(_)) ==> step.action is Finish && (
        step.change matches Some(change) && changed_part(work.segment@, change).state
            == BilibiliSegmentState::RemoteProcessing),
        (event matches PartEvent::Appended(Err(_)) && stage matches PartStage::Appending {
            aid,
            filename,
        }) ==> step.change is None && (stage matches PartStage::Appending {
            aid,
            filename,
        } && step.action == (PartAction::LookUp { aid, filename })),
        event matches PartEvent::LookedUp(Ok(true)) ==> step.action is Finish && (
        step.change matches Some(change) && changed_part(work.segment@, change).state
            == BilibiliSegmentState::RemoteVerified),
        event matches PartEvent::LookedUp(Ok(false)) ==> step.action is Finish && (
        step.change matches Some(change) && changed_part(work.segment@, change).state
            != BilibiliSegmentState::RemoteVerified),
{
}

/// A turn always waits for what it has just asked for, and keeps the submission and the file it
/// asked about.
pub proof fn law_turn_waits_for_its_answer(
    work: WorkItem,
    stage: PartStage,
    event: PartEvent,
    now: i64,
    step: PartStep,
)
    requires
        leads_to(work, stage, event, now, step),
    ensures
        step.action is ReadFile <==> step.stage is CheckingFile,
        step.action is UploadFile <==> step.stage is Uploading,
        step.action is Create <==> step.stage is Creating,
        step.action is Append <==> step.stage is Appending,
        step.action matches PartAction::Append { aid, filename } ==> step.stage == (
        PartStage::Appending { aid, filename }),
        step.action is LookUp <==> step.stage is ConfirmingAppend || step.stage is Recovering
            || step.stage is Verifying,
        step.action is Finish || step.action is Fail <==> step.stage is Done,
        step.stage is Recovering ==> work.segment.state == BilibiliSegmentState::Submitting,
        step.stage is Verifying ==> work.segment.state == BilibiliSegmentState::RemoteProcessing,
        step.stage is ConfirmingAppend ==> stage is Appending,
        step.action is UploadFile ==> (event matches PartEvent::FileRead(Ok(f)) && f.is_file && f.len
            == work.segment.file_size),
        fits(stage, event),
{
}

} // verus!
