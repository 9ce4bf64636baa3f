use live_replay::clock::IdCounter;
use live_replay::recordings::FileFacts;
use live_replay::youtube::{
    apply_upload_step, apply_upload_step_at, bearer, check_authorization, chunk_content_range,
    classify_creation_response, classify_session_response, confirmed_bytes, first_call,
    manual_upload, next_chunk, normalize_privacy, query_content_range, response_text,
    session_step, upload_token, usable_token, verify_nonempty_file,
    youtube_status, youtube_upload_scope,
    ServiceAnswer, UploadCall, UploadStep, UploadTask, UploadTaskState, YoutubeAuthResult,
    YoutubeStore, YoutubeWork,
};

fn task(id: &str, path: &str) -> UploadTask {
    UploadTask::new_at(
        id.to_string(),
        "甲".to_string(),
        path.to_string(),
        "标题".to_string(),
        1,
        2,
        1_000,
        50,
    )
}

fn answer(status: u16, body: &str) -> ServiceAnswer {
    ServiceAnswer {
        status,
        status_text: format!("{status} X"),
        range: None,
        location: None,
        body: body.to_string(),
    }
}

fn store(tasks: Vec<UploadTask>) -> YoutubeStore {
    let mut store = YoutubeStore::default();
    store.tasks = tasks;
    store
}

fn uploaded(id: &str) -> UploadTask {
    let mut done = task(id, "/v.mp4");
    apply_upload_step_at(&mut done, UploadStep::Success("vid".to_string()), 60);
    done
}

#[test]
fn a_new_task_waits_for_upload() {
    let mut counter = IdCounter::new();
    let new = UploadTask::new(
        &mut counter,
        "甲".to_string(),
        "/a.mp4".to_string(),
        "t".to_string(),
        1,
        2,
        3,
    );
    assert!(new.id.starts_with("youtube-") && new.id.ends_with("-0"));
    assert_eq!(new.state, UploadTaskState::ReadyToUpload);
    assert!((new.created_at - chrono::Utc::now().timestamp()).abs() < 60);
    assert_eq!(new.next_retry_at, new.created_at);
    assert!(new.can_auto_upload() && !new.has_confirmed_success());
    assert_eq!(youtube_upload_scope(), "https://www.googleapis.com/auth/youtube.upload");
}

#[test]
fn a_recording_is_queued_for_youtube_once() {
    let mut queue = YoutubeStore::default();
    assert!(queue.add_task_if_absent(task("1", "/a.mp4")));
    assert!(!queue.add_task_if_absent(task("2", "/b.mp4")));
    let mut later = task("3", "/a.mp4");
    later.started_at = 9;
    assert!(!queue.add_task_if_absent(later));
    let mut other = task("4", "/b.mp4");
    other.started_at = 9;
    assert!(queue.add_task_if_absent(other));
    assert_eq!(queue.tasks.len(), 2);
}

#[test]
fn a_restart_never_starts_a_second_upload() {
    let mut running = task("1", "/a");
    running.state = UploadTaskState::Uploading;
    let mut resumable = task("2", "/b");
    resumable.state = UploadTaskState::Uploading;
    resumable.resumable_session_url = Some("https://u".to_string());
    let mut recording = task("3", "/c");
    recording.state = UploadTaskState::Recording;
    let mut queue = store(vec![running, resumable, recording]);
    queue.settings.auto_upload = true;
    queue.normalize_after_restart_at(100);
    assert_eq!(queue.tasks[0].state, UploadTaskState::UploadResultUnknown);
    assert_eq!(queue.tasks[1].state, UploadTaskState::RetryPending);
    assert_eq!(queue.tasks[2].state, UploadTaskState::RetryPending);
    assert_eq!(first_call(&queue.tasks[1]), UploadCall::Query);
    assert_eq!(queue.next_work(100), YoutubeWork::Upload(1));
    let shown = format!("{queue:?}");
    queue.normalize_after_restart_at(100);
    assert_eq!(format!("{queue:?}"), shown);
    queue.normalize_after_restart();
    assert!((queue.tasks[0].updated_at - chrono::Utc::now().timestamp()).abs() < 60);
}

#[test]
fn steps_change_a_task() {
    let mut t = task("1", "/a");
    apply_upload_step_at(&mut t, UploadStep::Progress(5_000), 60);
    assert_eq!((t.state, t.confirmed_bytes, t.updated_at), (UploadTaskState::Uploading, 1_000, 60));
    apply_upload_step_at(&mut t, UploadStep::Retryable("e".to_string()), 70);
    assert_eq!((t.state, t.attempts, t.next_retry_at), (UploadTaskState::RetryPending, 1, 80));
    apply_upload_step_at(&mut t, UploadStep::WaitingForNetwork("n".to_string()), 71);
    assert_eq!(t.state, UploadTaskState::WaitingForNetwork);
    apply_upload_step_at(&mut t, UploadStep::AuthRequired("a".to_string()), 72);
    assert_eq!((t.state, t.last_error.as_deref()), (UploadTaskState::AuthRequired, Some("a")));
    apply_upload_step_at(&mut t, UploadStep::ResultUnknown("u".to_string()), 73);
    assert_eq!(t.state, UploadTaskState::UploadResultUnknown);
    t.success_persisted = true;
    apply_upload_step_at(&mut t, UploadStep::Success("vid".to_string()), 74);
    assert_eq!(t.youtube_video_id.as_deref(), Some("vid"));
    assert!(!t.success_persisted && !t.has_confirmed_success());
    apply_upload_step(&mut t, UploadStep::Progress(1));
    assert!((t.updated_at - chrono::Utc::now().timestamp()).abs() < 60);
}

#[test]
fn answers_about_a_session_are_classified() {
    let mut partial = answer(308, "");
    partial.range = Some("bytes=0-99".to_string());
    assert!(matches!(classify_session_response(&partial, 1_000), UploadStep::Progress(100)));
    match classify_session_response(&answer(200, r#"{"id":"vid"}"#), 1_000) {
        UploadStep::Success(id) => assert_eq!(id, "vid"),
        other => panic!("{other:?}"),
    }
    for body in [r#"{"id":" "}"#, r#"{"id":7}"#, "vid", ""] {
        match classify_session_response(&answer(201, body), 1_000) {
            UploadStep::ResultUnknown(m) => {
                assert_eq!(m, "YouTube 返回成功状态但没有有效 videoId；保留本地录像并停止自动重传。")
            }
            other => panic!("{other:?}"),
        }
    }
    match session_step(&answer(401, "b"), 1, None) {
        UploadStep::AuthRequired(m) => assert_eq!(m, "401 X: b"),
        other => panic!("{other:?}"),
    }
    match session_step(&answer(410, "b"), 1, None) {
        UploadStep::ResultUnknown(m) => {
            assert_eq!(m, "YouTube resumable session 已失效；为避免创建重复视频，不自动新建上传。")
        }
        other => panic!("{other:?}"),
    }
    match session_step(&answer(429, " "), 1, None) {
        UploadStep::Retryable(m) => assert_eq!(m, "429 X"),
        other => panic!("{other:?}"),
    }
    assert!(matches!(session_step(&answer(503, ""), 1, None), UploadStep::Retryable(_)));
    match session_step(&answer(400, "b"), 1, None) {
        UploadStep::ResultUnknown(m) => {
            assert_eq!(m, "YouTube 上传返回未预期状态 400 X；保留本地录像。400 X: b")
        }
        other => panic!("{other:?}"),
    }
}

#[test]
fn answers_to_a_session_request_are_classified() {
    let mut created = answer(200, "");
    created.location = Some("https://u".to_string());
    assert_eq!(classify_creation_response(&created).unwrap(), "https://u");
    created.location = Some("http://u".to_string());
    match classify_creation_response(&created) {
        Err(UploadStep::ResultUnknown(m)) => assert_eq!(
            m,
            "YouTube 创建上传会话成功但没有返回 Location；为防重复上传停止自动重试。"
        ),
        other => panic!("{other:?}"),
    }
    assert!(matches!(
        classify_creation_response(&answer(403, "")),
        Err(UploadStep::AuthRequired(_))
    ));
    assert!(matches!(
        classify_creation_response(&answer(404, "")),
        Err(UploadStep::Retryable(_))
    ));
}

#[test]
fn ranges_are_read_and_written() {
    assert_eq!(confirmed_bytes(None, 10), 0);
    assert_eq!(confirmed_bytes(Some("bytes=0-4"), 10), 5);
    assert_eq!(confirmed_bytes(Some("bytes=0-40"), 10), 10);
    assert_eq!(confirmed_bytes(Some("bytes=0-4-9"), 10), 5);
    assert_eq!(confirmed_bytes(Some("bytes=0-18446744073709551615"), 10), 10);
    assert_eq!(confirmed_bytes(Some("0-4"), 10), 0);
    assert_eq!(confirmed_bytes(Some("bytes=0"), 10), 0);
    assert_eq!(confirmed_bytes(Some("bytes=0-x"), 10), 0);
    let chunk = next_chunk(8_388_608, 20_000_000).unwrap();
    assert_eq!((chunk.start, chunk.end, chunk.length), (8_388_608, 16_777_215, 8_388_608));
    assert_eq!(chunk_content_range(chunk, 20_000_000), "bytes 8388608-16777215/20000000");
    assert_eq!(next_chunk(19_999_999, 20_000_000).unwrap().length, 1);
    assert_eq!(next_chunk(20_000_000, 20_000_000), None);
    assert_eq!(query_content_range(9), "bytes */9");
    assert_eq!(bearer(" t "), "Bearer t");
    assert_eq!(response_text("500 X", "\n"), "500 X");
    assert_eq!(normalize_privacy(" Public "), "public");
    assert_eq!(normalize_privacy("UNLISTED"), "unlisted");
    assert_eq!(normalize_privacy("?"), "private");
}

#[test]
fn the_queue_deletes_first_and_uploads_what_is_due() {
    let mut later = task("1", "/a");
    later.next_retry_at = 200;
    let mut login = task("2", "/b");
    login.state = UploadTaskState::AuthRequired;
    let mut queue = store(vec![later, login, uploaded("3")]);
    assert_eq!(queue.next_work(100), YoutubeWork::Idle);
    queue.settings.auto_upload = true;
    assert_eq!(queue.next_work(100), YoutubeWork::Upload(1));
    assert_eq!(queue.find_pending_safe_delete(), None);
    assert_eq!(queue.confirm_success("3", 99), Ok(2));
    assert_eq!(queue.find_pending_safe_delete().as_deref(), Some("3"));
    assert_eq!(queue.next_work(100), YoutubeWork::Delete(2));
    assert_eq!(queue.file_to_delete(2).as_deref(), Some("/v.mp4"));
    assert_eq!(queue.file_to_delete(0), None);
    queue.note_deleted(2, 101);
    assert_eq!(queue.find_pending_safe_delete(), None);
    queue.settings.delete_after_success = false;
    assert_eq!(queue.file_to_delete(2), None);
}

#[test]
fn a_failed_save_leaves_the_success_unconfirmed() {
    let mut queue = store(vec![task("1", "/a"), uploaded("2")]);
    let index = queue.confirm_success("2", 99).unwrap();
    assert!(queue.tasks[index].success_persisted);
    let failed = queue.after_success_save(index, Err("disk".to_string()));
    assert_eq!(failed, Err("disk".to_string()));
    assert!(!queue.tasks[index].success_persisted);
    assert!(!queue.tasks[index].local_deleted);
    assert_eq!(queue.tasks[index].updated_at, 99);
    assert_eq!(queue.file_to_delete(index), None);
    assert_eq!(queue.find_pending_safe_delete(), None);
    let index = queue.confirm_success("2", 100).unwrap();
    assert_eq!(queue.after_success_save(index, Ok(())), Ok(Some("/v.mp4".to_string())));
    assert!(queue.tasks[index].success_persisted);
    queue.settings.delete_after_success = false;
    assert_eq!(queue.after_success_save(index, Ok(())), Ok(None));
}

#[test]
fn a_file_is_deleted_only_after_its_success_was_saved() {
    let queue = store(vec![uploaded("1")]);
    assert_eq!(queue.file_to_delete(0), None);
    assert_eq!(queue.find_pending_safe_delete(), None);
    let mut unknown = store(vec![task("1", "/a")]);
    assert_eq!(
        unknown.confirm_success("1", 5),
        Err("YouTube 成功状态或 videoId 未确认，拒绝删除本地录像。".to_string())
    );
}

#[test]
fn a_session_is_created_behind_a_barrier() {
    let mut queue = store(vec![task("1", "/a")]);
    queue.settings.auto_upload = true;
    assert_eq!(first_call(&queue.tasks[0]), UploadCall::CreateSession);
    queue.mark_session_creation_started("1", 60).unwrap();
    queue.normalize_after_restart_at(70);
    assert_eq!(queue.next_work(1_000), YoutubeWork::Idle);

    let mut saved = store(vec![task("1", "/a")]);
    saved.mark_session_creation_started("1", 60).unwrap();
    saved.save_session_url("1", "https://u".to_string(), 61).unwrap();
    assert_eq!(first_call(&saved.tasks[0]), UploadCall::Query);
    saved.apply_step("1", UploadStep::Progress(10), 62).unwrap();
    assert_eq!(first_call(&saved.tasks[0]), UploadCall::SendChunk);
}

#[test]
fn unknown_tasks_and_unknown_results_are_refused() {
    let missing = Err("YouTube 上传任务不存在。".to_string());
    let mut queue = store(vec![task("1", "/a")]);
    assert_eq!(queue.mark_session_creation_started("x", 1), missing);
    assert_eq!(queue.save_session_url("x", "u".to_string(), 1), missing);
    assert_eq!(queue.set_task_auth_required("x", "m", 1), missing);
    assert_eq!(queue.apply_step("x", UploadStep::Progress(1), 1), missing);
    assert_eq!(queue.retry_task("x", 1), missing);
    assert!(queue.confirm_success("x", 1).is_err());
    queue.set_task_auth_required("1", "m", 100).unwrap();
    assert_eq!(queue.tasks[0].next_retry_at, 160);
    queue.retry_task("1", 200).unwrap();
    assert_eq!(queue.tasks[0].state, UploadTaskState::RetryPending);
    queue.apply_step("1", UploadStep::ResultUnknown("u".to_string()), 201).unwrap();
    assert_eq!(
        queue.retry_task("1", 202),
        Err("这个任务的远端结果不明确。为防重复视频，不能自动重建上传 session。".to_string())
    );
}

#[test]
fn logging_out_keeps_recordings() {
    let mut queue = store(vec![task("1", "/a"), uploaded("2")]);
    queue.set_settings(true, false);
    assert_eq!(queue.settings.privacy_status, "private");
    assert!(queue.settings.auto_upload && !queue.settings.delete_after_success);
    queue.settings.account_label = Some("me".to_string());
    queue.log_out();
    assert!(!queue.settings.auto_upload);
    assert_eq!(queue.settings.account_label, None);
    assert_eq!(queue.tasks[0].state, UploadTaskState::AuthRequired);
    assert_eq!(queue.tasks[0].last_error.as_deref(), Some("YouTube 账号已退出；本地录像保留。"));
    assert_eq!(queue.tasks[1].state, UploadTaskState::UploadSuccess);
}

#[test]
fn a_token_must_be_usable() {
    let auth = |authorized: bool, token: &str| YoutubeAuthResult {
        authorized,
        access_token: Some(token.to_string()),
        account_label: Some("me".to_string()),
        expires_at_millis: None,
    };
    assert_eq!(usable_token(true, Some("t".to_string())).as_deref(), Some("t"));
    assert_eq!(usable_token(true, Some(String::new())), None);
    assert_eq!(usable_token(false, Some("t".to_string())), None);
    assert!(youtube_status(YoutubeStore::default(), Ok(auth(true, "t"))).authorized);
    assert!(!youtube_status(YoutubeStore::default(), Err("e".to_string())).authorized);
    assert_eq!(check_authorization(&auth(true, "t")), Ok(Some("me".to_string())));
    assert_eq!(
        check_authorization(&auth(true, "")),
        Err("YouTube 授权没有返回有效 access token。".to_string())
    );
}

#[test]
fn a_file_chosen_by_hand_gets_a_title() {
    let upload = manual_upload(" /v/甲｜20：00.MP4 ", None, None).unwrap();
    assert_eq!(upload.path, "/v/甲｜20：00.MP4");
    assert_eq!(upload.title, "甲｜20:00");
    assert_eq!(upload.streamer_name, "Live Replay");
    let named = manual_upload("a.mp4", Some("t".to_string()), Some("乙".to_string())).unwrap();
    assert_eq!((named.title.as_str(), named.streamer_name.as_str()), ("t", "乙"));
    assert_eq!(manual_upload("a.mp4", Some(" ".to_string()), None).unwrap().title, "a");
    assert_eq!(
        manual_upload("a.flv", None, None).unwrap_err(),
        "当前 YouTube 手动验证只接受完整 MP4。"
    );
}

#[test]
fn a_deletion_follows_the_saved_success() {
    let mut queue = store(vec![uploaded("1"), task("2", "/a")]);
    let deletion = queue.safe_delete_successful_task("1", 70).unwrap();
    assert_eq!(deletion.index, 0);
    assert_eq!(deletion.path.as_deref(), Some("/v.mp4"));
    assert!(queue.tasks[0].success_persisted);
    assert_eq!(queue.tasks[0].updated_at, 70);
    queue.settings.delete_after_success = false;
    assert_eq!(queue.safe_delete_successful_task("1", 71).unwrap().path, None);
    assert_eq!(
        queue.safe_delete_successful_task("2", 72).unwrap_err(),
        "YouTube success/videoId 未确认，拒绝删除本地录像。"
    );
    assert_eq!(
        queue.safe_delete_successful_task("3", 72).unwrap_err(),
        "YouTube 上传任务不存在。"
    );
}

#[test]
fn an_upload_needs_a_login_and_a_file() {
    let login = |authorized: bool, token: &str| YoutubeAuthResult {
        authorized,
        access_token: Some(token.to_string()),
        account_label: None,
        expires_at_millis: None,
    };
    assert_eq!(upload_token(Ok(login(true, "t"))), Ok("t".to_string()));
    let again = Err("YouTube 需要重新授权；录像保留。".to_string());
    assert_eq!(upload_token(Ok(login(true, ""))), again);
    assert_eq!(upload_token(Ok(login(false, "t"))), again);
    assert_eq!(
        upload_token(Err("e".to_string())),
        Err("读取 YouTube 授权失败: e".to_string())
    );
    assert_eq!(verify_nonempty_file("/a", &Ok(FileFacts { is_file: true, len: 1 })), Ok(()));
    assert_eq!(
        verify_nonempty_file("/a", &Ok(FileFacts { is_file: true, len: 0 })),
        Err("录像文件为空，拒绝上传或删除: /a".to_string())
    );
    assert_eq!(
        verify_nonempty_file("/a", &Err("e".to_string())),
        Err("录像文件不存在: e".to_string())
    );
}
