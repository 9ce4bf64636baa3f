use live_replay::bilibili_attempt::{self as part_turn, PartAction, PartEvent, PartStage};
use live_replay::bilibili_queue::{
    BilibiliSegmentState as State, BilibiliSegmentTask, BilibiliSessionTask,
};
use live_replay::bilibili_worker::{BilibiliSubmissionRef, PartChange, WorkItem};
use live_replay::finalize::{
    self as finishing, FinalizeAction, FinalizeEvent, FinalizeJob, FinalizeStage,
};
use live_replay::recordings::FileFacts;
use live_replay::youtube::{
    UploadStep, UploadTask, UploadTaskState, YoutubeAuthResult, YoutubeStore,
};
use live_replay::youtube_attempt::{
    self as upload_turn, change_task, TaskChange, UploadAction, UploadEvent, UploadStage,
};

fn work(state: State, filename: Option<&str>, aid: Option<u64>) -> WorkItem {
    let part = || BilibiliSegmentTask {
        live_session_id: "s".to_string(),
        segment_index: 1,
        local_path: "/p1.mp4".to_string(),
        file_size: 100,
        started_at: 10,
        ended_at: 20,
        state,
        remote_filename: filename.map(|name| name.to_string()),
        retry_count: 0,
        next_retry_at: 0,
        last_error: None,
        local_deleted: false,
    };
    WorkItem {
        session: BilibiliSessionTask {
            live_session_id: "s".to_string(),
            streamer_name: "甲".to_string(),
            room_url: "https://live.bilibili.com/1".to_string(),
            platform: "bilibili".to_string(),
            session_started_at: 10,
            session_ended_at: None,
            recording_complete: false,
            aid,
            bvid: None,
            submission_state: "NOT_SUBMITTED".to_string(),
            segments: vec![part()],
        },
        segment: part(),
    }
}

fn login() -> PartEvent {
    PartEvent::LoginRead(Ok(()))
}

#[test]
fn a_part_without_a_login_waits() {
    let work = work(State::ReadyToUpload, None, None);
    let event = PartEvent::LoginRead(Err("e".to_string()));
    let step = part_turn::advance(&work, PartStage::Begin, event, 100);
    match step.change {
        Some(PartChange::SetState { state, error, next_retry_at }) => {
            assert_eq!(state, State::AuthRequired);
            assert_eq!(error.as_deref(), Some("e"));
            assert_eq!(next_retry_at, None);
        }
        other => panic!("{other:?}"),
    }
    assert!(matches!(step.action, PartAction::Finish));
}

#[test]
fn a_file_is_checked_before_it_is_uploaded() {
    let work = work(State::ReadyToUpload, None, None);
    let step = part_turn::advance(&work, PartStage::Begin, login(), 100);
    assert!(step.change.is_none());
    assert!(matches!(step.action, PartAction::ReadFile));
    let read = PartEvent::FileRead(Ok(FileFacts { is_file: true, len: 100 }));
    let step = part_turn::advance(&work, step.stage, read, 100);
    assert!(matches!(
        step.change,
        Some(PartChange::SetState { state: State::UploadingFile, .. })
    ));
    assert!(matches!(step.action, PartAction::UploadFile));
    let step =
        part_turn::advance(&work, step.stage, PartEvent::Uploaded(Ok("f".to_string())), 100);
    assert!(matches!(step.change, Some(PartChange::FileUploaded { filename }) if filename == "f"));
    assert!(matches!(step.stage, PartStage::Done));

    let other = PartEvent::FileRead(Ok(FileFacts { is_file: true, len: 99 }));
    let step = part_turn::advance(&work, PartStage::CheckingFile, other, 100);
    assert!(matches!(
        step.change,
        Some(PartChange::Conflict { error })
            if error == "录像大小发生变化，拒绝上传（入队 100 bytes，当前 99 bytes）。"
    ));
    assert!(matches!(step.action, PartAction::Finish));
}

#[test]
fn a_submission_is_saved_before_it_is_made() {
    let first = work(State::FileUploaded, Some("f"), None);
    let step = part_turn::advance(&first, PartStage::Begin, login(), 100);
    assert!(matches!(
        step.change,
        Some(PartChange::SetState { state: State::Submitting, .. })
    ));
    assert!(matches!(step.action, PartAction::Create { filename } if filename == "f"));
    let created = PartEvent::Created(Ok(BilibiliSubmissionRef { aid: 7, bvid: None }));
    let step = part_turn::advance(&first, step.stage, created, 100);
    assert!(matches!(
        step.change,
        Some(PartChange::Created { aid: 7, bvid: None, next_retry_at: 103 })
    ));

    let later = work(State::FileUploaded, Some("f"), Some(7));
    let step = part_turn::advance(&later, PartStage::Begin, login(), 100);
    assert!(matches!(step.action, PartAction::Append { aid: 7, filename } if filename == "f"));
    let step =
        part_turn::advance(&later, step.stage, PartEvent::Appended(Err("e".to_string())), 100);
    assert!(step.change.is_none());
    assert!(matches!(step.action, PartAction::LookUp { aid: 7, filename } if filename == "f"));
    let step = part_turn::advance(&later, step.stage, PartEvent::LookedUp(Ok(false)), 100);
    assert!(matches!(step.change, Some(PartChange::Uncertain { error }) if error == "e"));

    let missing = work(State::FileUploaded, None, None);
    let step = part_turn::advance(&missing, PartStage::Begin, login(), 100);
    assert!(matches!(
        step.action,
        PartAction::Fail(error) if error == "FILE_UPLOADED 状态缺少 remote_filename。"
    ));
}

#[test]
fn an_interrupted_submission_is_only_looked_for() {
    let known = work(State::Submitting, Some("f"), Some(7));
    let step = part_turn::advance(&known, PartStage::Begin, login(), 100);
    assert!(matches!(step.action, PartAction::LookUp { aid: 7, .. }));
    let step = part_turn::advance(&known, step.stage, PartEvent::LookedUp(Ok(true)), 100);
    assert!(matches!(step.change, Some(PartChange::Verified)));
    let unknown = work(State::Submitting, Some("f"), None);
    let step = part_turn::advance(&unknown, PartStage::Begin, login(), 100);
    assert!(matches!(step.change, Some(PartChange::Uncertain { .. })));
    assert!(matches!(step.action, PartAction::Finish));
    let processing = work(State::RemoteProcessing, Some("f"), Some(7));
    let step = part_turn::advance(&processing, PartStage::Begin, login(), 100);
    let step = part_turn::advance(&processing, step.stage, PartEvent::LookedUp(Ok(false)), 100);
    assert!(matches!(
        step.change,
        Some(PartChange::Processing { attempts: 1, next_retry_at: 105, .. })
    ));
}

fn task() -> UploadTask {
    UploadTask::new_at(
        "1".to_string(),
        "甲".to_string(),
        "/v.mp4".to_string(),
        "标题".to_string(),
        1,
        2,
        1_000,
        50,
    )
}

fn logged_in() -> UploadEvent {
    UploadEvent::LoginRead(Ok(YoutubeAuthResult {
        authorized: true,
        access_token: Some("t".to_string()),
        account_label: None,
        expires_at_millis: None,
    }))
}

#[test]
fn a_session_is_created_after_that_was_saved() {
    let task = task();
    let read = UploadEvent::FileRead(Ok(FileFacts { is_file: true, len: 1_000 }));
    let turn = upload_turn::advance(&task, UploadStage::Begin, read);
    assert!(turn.change.is_none());
    assert!(matches!(turn.action, UploadAction::ReadLogin));
    let turn = upload_turn::advance(&task, turn.stage, logged_in());
    assert!(matches!(turn.change, Some(TaskChange::CreationStarted)));
    assert!(matches!(turn.action, UploadAction::CreateSession { token } if token == "t"));
    let turn =
        upload_turn::advance(&task, turn.stage, UploadEvent::Created(Ok("https://u".to_string())));
    assert!(matches!(turn.change, Some(TaskChange::SessionCreated(url)) if url == "https://u"));
    assert!(matches!(turn.action, UploadAction::Finish));

    let empty = UploadEvent::FileRead(Ok(FileFacts { is_file: true, len: 0 }));
    let turn = upload_turn::advance(&task, UploadStage::Begin, empty);
    assert!(matches!(
        turn.action,
        UploadAction::Fail(error) if error == "录像文件为空，拒绝上传或删除: /v.mp4"
    ));
    let turn = upload_turn::advance(
        &task,
        UploadStage::Authorizing,
        UploadEvent::LoginRead(Err("e".to_string())),
    );
    assert!(matches!(
        turn.change,
        Some(TaskChange::LoginAwaited(message)) if message == "读取 YouTube 授权失败: e"
    ));
}

#[test]
fn an_upload_goes_on_with_its_session() {
    let mut task = task();
    task.resumable_session_url = Some("https://u".to_string());
    let turn = upload_turn::advance(&task, UploadStage::Authorizing, logged_in());
    assert!(matches!(turn.action, UploadAction::Query { ref url, .. } if url == "https://u"));
    let turn =
        upload_turn::advance(&task, turn.stage, UploadEvent::Answered(UploadStep::Progress(400)));
    assert!(matches!(turn.change, Some(TaskChange::Step(UploadStep::Progress(400)))));
    assert!(matches!(turn.action, UploadAction::SendChunk { start: 400, .. }));
    let done = UploadEvent::Answered(UploadStep::Success("v".to_string()));
    let turn = upload_turn::advance(&task, turn.stage, done);
    assert!(matches!(turn.action, UploadAction::DeleteFile));
    let asked = UploadStage::Querying { token: "t".to_string(), url: "https://u".to_string() };
    let turn =
        upload_turn::advance(&task, asked, UploadEvent::Answered(UploadStep::Progress(1_000)));
    assert!(matches!(turn.action, UploadAction::Finish));
    task.state = UploadTaskState::Uploading;
    task.confirmed_bytes = 10;
    let turn = upload_turn::advance(&task, UploadStage::Authorizing, logged_in());
    assert!(matches!(turn.action, UploadAction::SendChunk { start: 10, .. }));
}

#[test]
fn changes_of_a_task_reach_its_queue() {
    let mut store = YoutubeStore::default();
    store.tasks.push(task());
    change_task(&mut store, "1", TaskChange::CreationStarted, 60).unwrap();
    assert_eq!(store.tasks[0].state, UploadTaskState::Uploading);
    change_task(&mut store, "1", TaskChange::SessionCreated("https://u".to_string()), 61).unwrap();
    assert_eq!(store.tasks[0].resumable_session_url.as_deref(), Some("https://u"));
    change_task(&mut store, "1", TaskChange::Step(UploadStep::Progress(5)), 62).unwrap();
    assert_eq!(store.tasks[0].confirmed_bytes, 5);
    change_task(&mut store, "1", TaskChange::LoginAwaited("m".to_string()), 63).unwrap();
    assert_eq!(store.tasks[0].next_retry_at, 123);
    assert_eq!(
        change_task(&mut store, "x", TaskChange::CreationStarted, 64),
        Err("YouTube 上传任务不存在。".to_string())
    );
}

fn job() -> FinalizeJob {
    FinalizeJob { source: "/r/a.flv".to_string(), target: "/r/a.mp4".to_string() }
}

fn media() -> FinalizeEvent {
    FinalizeEvent::FileRead(Ok(FileFacts { is_file: true, len: 5 }))
}

/// Carries a job through `events` and shows the last action.
fn finish(job: &FinalizeJob, events: Vec<FinalizeEvent>) -> String {
    let mut stage = FinalizeStage::Looking;
    let mut shown = String::new();
    for event in events {
        let (next, action) = finishing::advance(job, stage, event, 77);
        stage = next;
        shown = format!("{action:?}");
    }
    shown
}

fn looked(source_exists: bool, target_exists: bool) -> FinalizeEvent {
    FinalizeEvent::Looked { source_exists, target_exists }
}

#[test]
fn finished_file_is_made_under_a_temporary_name() {
    let job = job();
    let mut stage = FinalizeStage::Looking;
    let mut actions = Vec::new();
    let events = vec![
        looked(true, true),
        FinalizeEvent::Moved(Ok(())),
        media(),
        FinalizeEvent::TempSeen { exists: true },
        FinalizeEvent::Removed(Ok(())),
        FinalizeEvent::Remuxed(Ok("/r/a.mp4.remuxing".to_string())),
        media(),
        FinalizeEvent::Synced(Ok(())),
        FinalizeEvent::Moved(Ok(())),
        media(),
    ];
    for event in events {
        let (next, action) = finishing::advance(&job, stage, event, 77);
        stage = next;
        actions.push(action);
    }
    assert!(matches!(stage, FinalizeStage::Done));
    assert!(matches!(
        &actions[0],
        FinalizeAction::Move { from, to } if from == "/r/a.mp4" && to == "/r/a.mp4.unverified-77"
    ));
    assert!(matches!(&actions[1], FinalizeAction::ReadFile(p) if p == "/r/a.flv"));
    assert!(matches!(&actions[2], FinalizeAction::LookForTemp(p) if p == "/r/a.mp4.remuxing"));
    assert!(matches!(&actions[3], FinalizeAction::Remove(p) if p == "/r/a.mp4.remuxing"));
    assert!(matches!(
        &actions[4],
        FinalizeAction::Remux { input, output }
            if input == "/r/a.flv" && output == "/r/a.mp4.remuxing"
    ));
    assert!(matches!(&actions[5], FinalizeAction::ReadFile(p) if p == "/r/a.mp4.remuxing"));
    assert!(matches!(&actions[6], FinalizeAction::Sync(p) if p == "/r/a.mp4.remuxing"));
    assert!(matches!(
        &actions[7],
        FinalizeAction::Move { from, to } if from == "/r/a.mp4.remuxing" && to == "/r/a.mp4"
    ));
    assert!(matches!(&actions[8], FinalizeAction::ReadFile(p) if p == "/r/a.mp4"));
    assert!(matches!(
        &actions[9],
        FinalizeAction::FinishAndRemove { path, source }
            if path == "/r/a.mp4" && source == "/r/a.flv"
    ));
}

#[test]
fn finished_file_without_source_is_taken_as_it_is() {
    assert_eq!(
        finish(&job(), vec![looked(false, true), media(), FinalizeEvent::Synced(Ok(()))]),
        "Finish { path: \"/r/a.mp4\" }"
    );
    let same = FinalizeJob { source: "/r/a.mp4".to_string(), target: "/r/a.mp4".to_string() };
    assert_eq!(
        finish(&same, vec![looked(true, true), media(), FinalizeEvent::Synced(Ok(()))]),
        "Finish { path: \"/r/a.mp4\" }"
    );
}

#[test]
fn finishing_stops_at_each_failure() {
    let job = job();
    let gone = || "x".to_string();
    assert_eq!(
        finish(&job, vec![looked(true, true), FinalizeEvent::Moved(Err(gone()))]),
        "Fail(\"隔离旧版未确认 MP4 失败: x\")"
    );
    assert_eq!(
        finish(&job, vec![looked(false, false), FinalizeEvent::FileRead(Err(gone()))]),
        "Fail(\"录像文件不存在 /r/a.flv: x\")"
    );
    let remuxing = || vec![looked(true, false), media(), FinalizeEvent::TempSeen { exists: false }];
    let after = |more: Vec<FinalizeEvent>| {
        let mut events = remuxing();
        events.extend(more);
        finish(&job, events)
    };
    let made = || FinalizeEvent::Remuxed(Ok("/r/a.mp4.remuxing".to_string()));
    let empty = || FinalizeEvent::FileRead(Ok(FileFacts { is_file: true, len: 0 }));
    let synced = || FinalizeEvent::Synced(Ok(()));
    assert_eq!(after(vec![FinalizeEvent::Remuxed(Err(gone()))]), "Fail(\"x\")");
    assert_eq!(
        after(vec![FinalizeEvent::Remuxed(Ok("/b".to_string()))]),
        "Fail(\"Android MP4 finalize 返回了意外路径: /b\")"
    );
    assert_eq!(after(vec![made(), empty()]), "Fail(\"录像文件为空: /r/a.mp4.remuxing\")");
    assert_eq!(
        after(vec![made(), media(), FinalizeEvent::Synced(Err(gone()))]),
        "Fail(\"x\")"
    );
    assert_eq!(
        after(vec![made(), media(), synced(), FinalizeEvent::Moved(Err(gone()))]),
        "Fail(\"原子提交最终 MP4 失败: x\")"
    );
    assert_eq!(
        after(vec![made(), media(), synced(), FinalizeEvent::Moved(Ok(())), empty()]),
        "Fail(\"录像文件为空: /r/a.mp4\")"
    );
    assert_eq!(
        finish(
            &job,
            vec![
                looked(true, false),
                media(),
                FinalizeEvent::TempSeen { exists: true },
                FinalizeEvent::Removed(Err(gone())),
            ],
        ),
        "Fail(\"清理上次未完成 MP4 临时文件失败: x\")"
    );
}
