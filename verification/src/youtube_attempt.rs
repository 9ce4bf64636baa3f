//! One turn of the worker on an upload: what is saved, what is asked of the service, and what the
//! answers lead to.

use crate::recordings::FileFacts;
use crate::youtube::{
    creation_started, first_call, first_call_of, is_due, login_awaited, missing_task, only_changed,
    restarted, session_saved, stepped, task_models, task_position, upload_token,
    verify_nonempty_file, TaskModel, UploadCall, UploadStep, UploadTask, UploadTaskState,
    YoutubeAuthResult, YoutubeStore,
};
use vstd::prelude::*;

verus! {

/// A change of one task of the queue.
#[derive(Debug)]
pub enum TaskChange {
    /// There is no usable login; this is why.
    LoginAwaited(String),
    /// A session is about to be created.
    CreationStarted,
    /// A session was created at this address.
    SessionCreated(String),
    /// An exchange with the service came to this.
    Step(UploadStep),
}

/// A task after a change at `now`.
pub open spec fn changed_task(task: TaskModel, change: TaskChange, now: i64) -> TaskModel {
    match change {
        TaskChange::LoginAwaited(message) => login_awaited(task, message@, now),
        TaskChange::CreationStarted => creation_started(task, now),
        TaskChange::SessionCreated(url) => session_saved(task, url@, now),
        TaskChange::Step(step) => stepped(task, step, now),
    }
}

/// Carries out a change of a task of the queue.
pub fn change_task(store: &mut YoutubeStore, task_id: &str, change: TaskChange, now: i64) -> (r:
    Result<(), String>)
    ensures
        ({
            let tasks = task_models(old(store).tasks@);
            let k = task_position(tasks, task_id@);
            if k == tasks.len() {
                r matches Err(m) && m@ == missing_task() && *final(store) == *old(store)
            } else {
                r is Ok && only_changed(
                    *old(store),
                    *final(store),
                    k,
                    changed_task(tasks[k], change, now),
                )
            }
        }),
{
    match change {
        TaskChange::LoginAwaited(message) => store.set_task_auth_required(
            task_id,
            message.as_str(),
            now,
        ),
        TaskChange::CreationStarted => store.mark_session_creation_started(task_id, now),
        TaskChange::SessionCreated(url) => store.save_session_url(task_id, url, now),
        TaskChange::Step(step) => store.apply_step(task_id, step, now),
    }
}

/// How far a turn has come.
#[derive(Debug)]
pub enum UploadStage {
    /// The file is being looked at.
    Begin,
    /// The login is being read.
    Authorizing,
    /// The session is being created.
    Creating,
    /// The service is being asked how much has arrived.
    Querying { token: String, url: String },
    /// A piece is being sent.
    Sending,
    /// The turn is over.
    Done,
}

/// What happened in a turn.
#[derive(Debug)]
pub enum UploadEvent {
    FileRead(Result<FileFacts, String>),
    LoginRead(Result<YoutubeAuthResult, String>),
    /// The address of the new session, or what its creation came to.
    Created(Result<String, UploadStep>),
    /// What an exchange on a session came to.
    Answered(UploadStep),
}

/// What a turn does next.
#[derive(Debug)]
pub enum UploadAction {
    ReadLogin,
    CreateSession { token: String },
    Query { token: String, url: String },
    /// Sends the piece that begins at this byte.
    SendChunk { token: String, url: String, start: u64 },
    /// The upload is complete; its file may be deleted as the settings say.
    DeleteFile,
    /// Nothing; the turn is over.
    Finish,
    /// Nothing; the turn failed.
    Fail(String),
}

/// A step of a turn. The change is saved before the action is begun.
#[derive(Debug)]
pub struct UploadTurn {
    pub change: Option<TaskChange>,
    pub stage: UploadStage,
    pub action: UploadAction,
}

/// An event is one that can happen at a stage.
pub open spec fn fits(stage: UploadStage, event: UploadEvent) -> bool {
    match stage {
        UploadStage::Begin => event is FileRead,
        UploadStage::Authorizing => event is LoginRead,
        UploadStage::Creating => event is Created,
        UploadStage::Querying { .. } => event is Answered,
        UploadStage::Sending => event is Answered,
        UploadStage::Done => false,
    }
}

/// The turn after the file was looked at: one that is missing or empty ends it.
pub open spec fn checked(
    task: UploadTask,
    facts: Result<FileFacts, String>,
    turn: UploadTurn,
) -> bool {
    &&& turn.change is None
    &&& match facts {
        Ok(f) if f.is_file && f.len > 0 => turn.stage is Authorizing && turn.action is ReadLogin,
        Ok(_) => turn.stage is Done && (turn.action matches UploadAction::Fail(m) && m@
            == "录像文件为空，拒绝上传或删除: "@ + task.local_path@),
        Err(e) => turn.stage is Done && (turn.action matches UploadAction::Fail(m) && m@
            == "录像文件不存在: "@ + e@),
    }
}

/// The turn after the login was read: without one the task waits for it; else the exchange begins
/// that the task needs first. That a session is about to be created is saved before.
pub open spec fn authorized(
    task: UploadTask,
    auth: Result<YoutubeAuthResult, String>,
    turn: UploadTurn,
) -> bool {
    match auth {
        Ok(a) if a.authorized && a.access_token is Some && a.access_token->0@.len() > 0 => {
            let token = a.access_token->0;
            match task.resumable_session_url {
                None => {
                    &&& turn.change == Some(TaskChange::CreationStarted)
                    &&& turn.stage is Creating
                    &&& turn.action == (UploadAction::CreateSession { token })
                },
                Some(url) => {
                    &&& turn.change is None
                    &&& if task.state == UploadTaskState::Uploading && task.confirmed_bytes > 0 {
                        turn.stage is Sending && turn.action == (UploadAction::SendChunk {
                            token,
                            url,
                            start: task.confirmed_bytes,
                        })
                    } else {
                        turn.stage == (UploadStage::Querying { token, url }) && turn.action == (
                        UploadAction::Query { token, url })
                    }
                },
            }
        },
        Ok(_) => {
            &&& turn.change matches Some(TaskChange::LoginAwaited(m))
            &&& m@ == "YouTube 需要重新授权；录像保留。"@
            &&& turn.stage is Done && turn.action is Finish
        },
        Err(e) => {
            &&& turn.change matches Some(TaskChange::LoginAwaited(m))
            &&& m@ == "读取 YouTube 授权失败: "@ + e@
            &&& turn.stage is Done && turn.action is Finish
        },
    }
}

/// The turn after the service was asked how much has arrived: the next piece follows, if one is
/// left.
pub open spec fn queried(
    task: UploadTask,
    token: String,
    url: String,
    step: UploadStep,
    turn: UploadTurn,
) -> bool {
    &&& turn.change == Some(TaskChange::Step(step))
    &&& match step {
        UploadStep::Progress(bytes) if bytes < task.file_size => turn.stage is Sending
            && turn.action == (UploadAction::SendChunk { token, url, start: bytes }),
        _ => turn.stage is Done && turn.action is Finish,
    }
}

/// What an event at a stage leads to.
pub open spec fn leads_to(
    task: UploadTask,
    stage: UploadStage,
    event: UploadEvent,
    turn: UploadTurn,
) -> bool {
    match (stage, event) {
        (UploadStage::Begin, UploadEvent::FileRead(facts)) => checked(task, facts, turn),
        (UploadStage::Authorizing, UploadEvent::LoginRead(auth)) => authorized(task, auth, turn),
        (UploadStage::Creating, UploadEvent::Created(result)) => {
            &&& turn.change == Some(
                match result {
                    Ok(url) => TaskChange::SessionCreated(url),
                    Err(step) => TaskChange::Step(step),
                },
            )
            &&& turn.stage is Done && turn.action is Finish
        },
        (UploadStage::Querying { token, url }, UploadEvent::Answered(step)) => queried(
            task,
            token,
            url,
            step,
            turn,
        ),
        (UploadStage::Sending, UploadEvent::Answered(step)) => {
            &&& turn.change == Some(TaskChange::Step(step))
            &&& turn.stage is Done
            &&& if step is Success {
                turn.action is DeleteFile
            } else {
                turn.action is Finish
            }
        },
        _ => false,
    }
}

fn finish(change: Option<TaskChange>) -> (r: UploadTurn)
    ensures
        r.change == change,
        r.stage is Done,
        r.action is Finish,
{
    UploadTurn { change, stage: UploadStage::Done, action: UploadAction::Finish }
}

fn check(task: &UploadTask, facts: Result<FileFacts, String>) -> (r: UploadTurn)
    ensures
        checked(*task, facts, r),
{
    match verify_nonempty_file(task.local_path.as_str(), &facts) {
        Ok(_) => UploadTurn {
            change: None,
            stage: UploadStage::Authorizing,
            action: UploadAction::ReadLogin,
        },
        Err(message) => UploadTurn {
            change: None,
            stage: UploadStage::Done,
            action: UploadAction::Fail(message),
        },
    }
}

fn authorize(task: &UploadTask, auth: Result<YoutubeAuthResult, String>) -> (r: UploadTurn)
    ensures
        authorized(*task, auth, r),
{
    let token = match upload_token(auth) {
        Ok(token) => token,
        Err(message) => return finish(Some(TaskChange::LoginAwaited(message))),
    };
    match &task.resumable_session_url {
        None => UploadTurn {
            change: Some(TaskChange::CreationStarted),
            stage: UploadStage::Creating,
            action: UploadAction::CreateSession { token },
        },
        Some(url) => {
            if first_call(task) == UploadCall::SendChunk {
                UploadTurn {
                    change: None,
                    stage: UploadStage::Sending,
                    action: UploadAction::SendChunk {
                        token,
                        url: url.clone(),
                        start: task.confirmed_bytes,
                    },
                }
            } else {
                UploadTurn {
                    change: None,
                    stage: UploadStage::Querying { token: token.clone(), url: url.clone() },
                    action: UploadAction::Query { token, url: url.clone() },
                }
            }
        },
    }
}

/// Carries a turn on an upload further: takes note of an event, and tells what is saved and what is
/// done next.
pub fn advance(task: &UploadTask, stage: UploadStage, event: UploadEvent) -> (r: UploadTurn)
    requires
        fits(stage, event),
    ensures
        leads_to(*task, stage, event, r),
{
    match (stage, event) {
        (UploadStage::Begin, UploadEvent::FileRead(facts)) => check(task, facts),
        (UploadStage::Authorizing, UploadEvent::LoginRead(auth)) => authorize(task, auth),
        (UploadStage::Creating, UploadEvent::Created(result)) => match result {
            Ok(url) => finish(Some(TaskChange::SessionCreated(url))),
            Err(step) => finish(Some(TaskChange::Step(step))),
        },
        (UploadStage::Querying { token, url }, UploadEvent::Answered(step)) => {
            let left = match &step {
                UploadStep::Progress(bytes) => if *bytes < task.file_size {
                    Some(*bytes)
                } else {
                    None
                },
                _ => None,
            };
            match left {
                Some(start) => UploadTurn {
                    change: Some(TaskChange::Step(step)),
                    stage: UploadStage::Sending,
                    action: UploadAction::SendChunk { token, url, start },
                },
                None => finish(Some(TaskChange::Step(step))),
            }
        },
        (UploadStage::Sending, UploadEvent::Answered(step)) => {
            let complete = matches!(&step, UploadStep::Success(_));
            let action = if complete {
                UploadAction::DeleteFile
            } else {
                UploadAction::Finish
            };
            UploadTurn { change: Some(TaskChange::Step(step)), stage: UploadStage::Done, action }
        },
        (stage, event) => {
            assert(!fits(stage, event));
            finish(None)
        },
    }
}

/// A session is created only for a task without one, and only after it was saved that this is about
/// to happen: should the program end now, no restart creates another.
pub proof fn law_creation_saved_first(
    task: UploadTask,
    stage: UploadStage,
    event: UploadEvent,
    turn: UploadTurn,
    now: i64,
    later: i64,
)
    requires
        leads_to(task, stage, event, turn),
        turn.action is CreateSession,
    ensures
        task.resumable_session_url is None,
        turn.change matches Some(change) && !is_due(later)(
            restarted(changed_task(task@, change, now), now),
        ),
{
}

/// A task with a session goes on with this session, whatever happens in the turn.
pub proof fn law_session_kept(
    task: UploadTask,
    stage: UploadStage,
    event: UploadEvent,
    turn: UploadTurn,
    now: i64,
)
    requires
        leads_to(task, stage, event, turn),
        task.resumable_session_url is Some,
        !(stage is Creating),
    ensures
        !(turn.action is CreateSession),
        turn.change matches Some(change) ==> changed_task(task@, change, now).resumable_session_url
            == task@.resumable_session_url,
        first_call_of(task@) != UploadCall::CreateSession,
{
}

/// A file is offered for deletion only after the service has confirmed the upload, and the name of
/// the video is saved before.
pub proof fn law_deletion_follows_success(
    task: UploadTask,
    stage: UploadStage,
    event: UploadEvent,
    turn: UploadTurn,
    now: i64,
)
    requires
        leads_to(task, stage, event, turn),
        turn.action is DeleteFile,
    ensures
        turn.change matches Some(change) && changed_task(task@, change, now).state
            == UploadTaskState::UploadSuccess && changed_task(
            task@,
            change,
            now,
        ).youtube_video_id is Some,
{
}

/// An upload that has a login goes on where it stands: in a session of its own where there is none
/// yet, else in the session that was opened, from the byte that was confirmed. Without a login it
/// waits for one.
pub proof fn law_login_leads_on(
    task: UploadTask,
    auth: Result<YoutubeAuthResult, String>,
    turn: UploadTurn,
    now: i64,
)
    requires
        leads_to(task, UploadStage::Authorizing, UploadEvent::LoginRead(auth), turn),
    ensures
        ({
            let usable = auth matches Ok(a) && a.authorized && a.access_token is Some
                && a.access_token->0@.len() > 0;
            &&& !usable ==> turn.action is Finish && (turn.change matches Some(change)
                && changed_task(task@, change, now).state == UploadTaskState::AuthRequired
                && changed_task(task@, change, now).last_error is Some)
            &&& usable && task.resumable_session_url is None ==> turn.action == (
            UploadAction::CreateSession { token: auth->Ok_0.access_token->0 }) && (
            turn.change matches Some(change) && changed_task(task@, change, now).state
                == UploadTaskState::Uploading)
            &&& usable && task.resumable_session_url is Some ==> turn.change is None && (
            turn.action == (UploadAction::Query {
                token: auth->Ok_0.access_token->0,
                url: task.resumable_session_url->0,
            }) || turn.action == (UploadAction::SendChunk {
                token: auth->Ok_0.access_token->0,
                url: task.resumable_session_url->0,
                start: task.confirmed_bytes,
            }))
            &&& turn.action is SendChunk ==> task.state == UploadTaskState::Uploading
                && task.confirmed_bytes > 0
            &&& usable && task.resumable_session_url is Some && task.state
                == UploadTaskState::Uploading && task.confirmed_bytes > 0
                ==> turn.action is SendChunk
        }),
{
}

/// A file that is there and holds something is taken up for upload; any other is refused, and the
/// upload is left as it was.
pub proof fn law_only_real_files_go_on(
    task: UploadTask,
    facts: Result<FileFacts, String>,
    turn: UploadTurn,
)
    requires
        leads_to(task, UploadStage::Begin, UploadEvent::FileRead(facts), turn),
    ensures
        turn.change is None,
        turn.action is ReadLogin <==> (facts matches Ok(f) && f.is_file && f.len > 0),
        turn.action is ReadLogin || turn.action is Fail,
{
}

/// What the service answers is noted, whatever it is. A confirmed part is followed by the next one,
/// from the first byte that is missing, in the same session; the file is deleted only after success.
pub proof fn law_answers_are_noted(
    task: UploadTask,
    stage: UploadStage,
    step: UploadStep,
    turn: UploadTurn,
    now: i64,
)
    requires
        leads_to(task, stage, UploadEvent::Answered(step), turn),
    ensures
        turn.change == Some(TaskChange::Step(step)),
        turn.change matches Some(change) && changed_task(task@, change, now) == stepped(
            task@,
            step,
            now,
        ),
        turn.action is DeleteFile <==> stage is Sending && step is Success,
        stage matches UploadStage::Querying { token, url } ==> (
        step matches UploadStep::Progress(bytes) ==> (bytes < task.file_size ==> turn.action == (
        UploadAction::SendChunk { token, url, start: bytes })) && (bytes >= task.file_size
            ==> turn.action is Finish)),
        stage is Querying && !(step is Progress) ==> turn.action is Finish,
        stage is Sending && !(step is Success) ==> turn.action is Finish,
{
}

/// A session that was opened is kept with the upload, and is the one that is used from then on.
pub proof fn law_opened_session_is_kept(
    task: UploadTask,
    result: Result<String, UploadStep>,
    turn: UploadTurn,
    now: i64,
)
    requires
        leads_to(task, UploadStage::Creating, UploadEvent::Created(result), turn),
    ensures
        turn.action is Finish,
        turn.change is Some,
        result matches Ok(url) ==> changed_task(task@, turn.change->0, now).resumable_session_url
            == Some(url@) && changed_task(task@, turn.change->0, now).state
            == UploadTaskState::Uploading,
        result matches Err(step) ==> changed_task(task@, turn.change->0, now) == stepped(
            task@,
            step,
            now,
        ),
{
}

/// Whatever a turn notes, the upload stays the upload of the same recording.
pub proof fn law_turn_keeps_identity(task: TaskModel, change: TaskChange, now: i64)
    ensures
        ({
            let after = changed_task(task, change, now);
            &&& after.id == task.id
            &&& after.local_path == task.local_path
            &&& after.streamer_name == task.streamer_name
            &&& after.youtube_title == task.youtube_title
            &&& after.started_at == task.started_at && after.ended_at == task.ended_at
            &&& after.file_size == task.file_size
            &&& !(change is Step) ==> after.youtube_video_id == task.youtube_video_id
            &&& change is CreationStarted ==> after.state == UploadTaskState::Uploading
            &&& change is LoginAwaited ==> after.confirmed_bytes == task.confirmed_bytes
        }),
{
}

/// At every stage the event that it waits for, and no other, is answered.
pub proof fn law_stages_await_their_events(
    task: UploadTask,
    stage: UploadStage,
    event: UploadEvent,
    turn: UploadTurn,
)
    ensures
        leads_to(task, stage, event, turn) ==> fits(stage, event),
        fits(UploadStage::Begin, event) <==> event is FileRead,
        fits(UploadStage::Authorizing, event) <==> event is LoginRead,
        fits(UploadStage::Creating, event) <==> event is Created,
        fits(UploadStage::Sending, event) <==> event is Answered,
        stage is Querying ==> (fits(stage, event) <==> event is Answered),
        !fits(UploadStage::Done, event),
{
}

/// A turn always waits for what it has just asked for.
pub proof fn law_turn_waits_for_its_answer(
    task: UploadTask,
    stage: UploadStage,
    event: UploadEvent,
    turn: UploadTurn,
)
    requires
        leads_to(task, stage, event, turn),
    ensures
        turn.action is ReadLogin <==> turn.stage is Authorizing,
        turn.action is CreateSession <==> turn.stage is Creating,
        turn.action is SendChunk <==> turn.stage is Sending,
        turn.action is Query <==> turn.stage is Querying,
        turn.action matches UploadAction::Query { token, url } ==> turn.stage == (
        UploadStage::Querying { token, url }),
        turn.action is Finish || turn.action is Fail || turn.action is DeleteFile
            <==> turn.stage is Done,
        event matches UploadEvent::FileRead(Err(e)) ==> (turn.action matches UploadAction::Fail(m)
            && e@.is_suffix_of(m@)),
        event matches UploadEvent::FileRead(Ok(_)) ==> (turn.action matches UploadAction::Fail(m)
            ==> task.local_path@.is_suffix_of(m@)),
{
    if let UploadAction::Fail(m) = turn.action {
        let tail = match event {
            UploadEvent::FileRead(Err(e)) => e@,
            _ => task.local_path@,
        };
        assert(m@.skip(m@.len() - tail.len()) =~= tail);
    }
}

} // verus!
