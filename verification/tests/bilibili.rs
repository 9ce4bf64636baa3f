use live_replay::bilibili_queue::{
    enqueue_finalized_segment, mark_session_recording_complete, set_settings,
    BilibiliSegmentState as State, BilibiliSegmentTask, BilibiliSessionTask, BilibiliSettings,
    BilibiliStore,
};
use live_replay::bilibili_worker::{
    after_append, after_create, after_recovery_lookup, after_upload, after_verification,
    automatic_work, change_part, check_upload_file, deletable_files, mark_title_final, next_work, part_title,
    part_title_from, recovery_lookup, remote_contains_filename, session_title,
    session_title_end, session_title_from, session_to_finalize, start_work, submission_call,
    submission_description, submission_started, verification_lookup, BilibiliSubmissionRef,
    PartChange, RemoteLookup, SubmissionCall, WorkAction,
};
use live_replay::clock::{local_time, LocalTime};
use live_replay::recording::RecordingSegment;
use live_replay::recordings::FileFacts;

fn part(index: u32, state: State) -> BilibiliSegmentTask {
    BilibiliSegmentTask {
        live_session_id: "s".to_string(),
        segment_index: index,
        local_path: format!("/p{index}.mp4"),
        file_size: 100,
        started_at: 10,
        ended_at: 20,
        state,
        remote_filename: None,
        retry_count: 0,
        next_retry_at: 0,
        last_error: None,
        local_deleted: false,
    }
}

fn session(id: &str, started: i64, parts: Vec<BilibiliSegmentTask>) -> BilibiliSessionTask {
    BilibiliSessionTask {
        live_session_id: id.to_string(),
        streamer_name: "甲".to_string(),
        room_url: "room".to_string(),
        platform: "p".to_string(),
        session_started_at: started,
        session_ended_at: None,
        recording_complete: false,
        aid: None,
        bvid: None,
        submission_state: "NOT_SUBMITTED".to_string(),
        segments: parts,
    }
}

fn store(sessions: Vec<BilibiliSessionTask>) -> BilibiliStore {
    let mut store = BilibiliStore::default();
    store.sessions = sessions;
    store
}

fn recorded(session: &str, index: u32) -> RecordingSegment {
    RecordingSegment {
        live_session_id: session.to_string(),
        segment_index: index,
        streamer_name: "甲".to_string(),
        platform: "bilibili".to_string(),
        room_url: "room".to_string(),
        source_path: "s".to_string(),
        final_mp4_path: "f".to_string(),
        local_file_name: "f".to_string(),
        youtube_title: "t".to_string(),
        started_at: 1,
        ended_at: 2,
        bytes_written: 1,
    }
}

fn facts(is_file: bool, len: u64) -> Result<FileFacts, String> {
    Ok(FileFacts { is_file, len })
}

fn at(hour: &str, minute: &str) -> Option<LocalTime> {
    Some(LocalTime {
        timestamp: 0,
        date: "2024-05-06".to_string(),
        hour: hour.to_string(),
        minute: minute.to_string(),
        second: "07".to_string(),
        stamp: String::new(),
    })
}

#[test]
fn finished_parts_are_queued_once_and_in_order() {
    let mut queue = BilibiliStore::default();
    for index in [2, 1, 2] {
        enqueue_finalized_segment(&mut queue, &recorded("s", index), "/v.mp4", &facts(true, 7)).unwrap();
    }
    assert_eq!(queue.sessions.len(), 1);
    let indices: Vec<u32> = queue.sessions[0].segments.iter().map(|p| p.segment_index).collect();
    assert_eq!(indices, [1, 2]);
    assert_eq!(queue.sessions[0].submission_state, "NOT_SUBMITTED");
    assert_eq!(queue.sessions[0].segments[0].file_size, 7);
    assert_eq!(
        enqueue_finalized_segment(&mut queue, &recorded("s", 3), "/v", &facts(true, 0)),
        Err("B站待上传 MP4 为空，拒绝入队。".to_string())
    );
    assert_eq!(
        enqueue_finalized_segment(&mut queue, &recorded("s", 3), "/v", &Err("e".to_string())),
        Err("读取 B站待上传 MP4 失败: e".to_string())
    );
    mark_session_recording_complete(&mut queue, "s", 99);
    assert!(queue.sessions[0].recording_complete);
    assert_eq!(queue.sessions[0].session_ended_at, Some(99));
    set_settings(&mut queue, true, true);
    assert!(queue.settings.auto_upload && queue.settings.delete_after_success);
}

#[test]
fn parts_of_a_session_advance_in_order() {
    let queue = store(vec![
        session("late", 50, vec![part(1, State::ReadyToUpload)]),
        session("early", 10, vec![part(2, State::ReadyToUpload), part(1, State::RemoteVerified)]),
    ]);
    let work = next_work(&queue, 0).unwrap();
    assert_eq!(work.session.live_session_id, "early");
    assert_eq!(work.segment.segment_index, 2);
}

#[test]
fn an_uncertain_part_blocks_the_parts_behind_it() {
    for blocked in [State::SubmissionUncertain, State::Conflict] {
        let queue = store(vec![
            session("a", 10, vec![part(1, blocked), part(2, State::ReadyToUpload)]),
            session("b", 20, vec![part(1, State::FileUploaded)]),
        ]);
        assert_eq!(next_work(&queue, 0).unwrap().session.live_session_id, "b");
    }
    let mut waiting = part(1, State::RetryPending);
    waiting.next_retry_at = 100;
    let mut queue = store(vec![session("a", 10, vec![waiting])]);
    assert!(next_work(&queue, 99).is_none());
    assert!(next_work(&queue, 100).is_some());
    assert!(automatic_work(&queue, 100).is_none());
    queue.settings.auto_upload = true;
    assert!(automatic_work(&queue, 100).is_some());
}

#[test]
fn work_starts_with_the_login() {
    match start_work(&part(1, State::FileUploaded), Err("no login".to_string())) {
        WorkAction::Change(PartChange::SetState { state, error, next_retry_at }) => {
            assert_eq!(state, State::AuthRequired);
            assert_eq!(error.as_deref(), Some("no login"));
            assert_eq!(next_retry_at, None);
        }
        other => panic!("{other:?}"),
    }
    let mut uploaded = part(1, State::AuthRequired);
    match start_work(&uploaded, Ok(())) {
        WorkAction::Change(PartChange::SetState { state, next_retry_at, .. }) => {
            assert_eq!((state, next_retry_at), (State::ReadyToUpload, Some(0)));
        }
        other => panic!("{other:?}"),
    }
    uploaded.remote_filename = Some("r".to_string());
    match start_work(&uploaded, Ok(())) {
        WorkAction::Change(PartChange::SetState { state, .. }) => {
            assert_eq!(state, State::FileUploaded)
        }
        other => panic!("{other:?}"),
    }
    let action = |state| start_work(&part(1, state), Ok(()));
    assert!(matches!(action(State::ReadyToUpload), WorkAction::UploadFile));
    assert!(matches!(action(State::UploadingFile), WorkAction::UploadFile));
    assert!(matches!(action(State::RetryPending), WorkAction::UploadFile));
    assert!(matches!(action(State::FileUploaded), WorkAction::SubmitPart));
    assert!(matches!(action(State::Submitting), WorkAction::RecoverSubmission));
    assert!(matches!(action(State::RemoteProcessing), WorkAction::VerifyRemote));
    assert!(matches!(action(State::RemoteVerified), WorkAction::Nothing));
    assert!(matches!(action(State::Conflict), WorkAction::Nothing));
    assert!(matches!(action(State::SubmissionUncertain), WorkAction::Nothing));
}

#[test]
fn a_changed_file_is_not_uploaded() {
    let p = part(1, State::ReadyToUpload);
    let conflict = |change| match change {
        PartChange::Conflict { error } => error,
        other => panic!("{other:?}"),
    };
    assert_eq!(conflict(check_upload_file(&p, &facts(true, 0))), "待上传录像不是有效文件或为空。");
    assert_eq!(conflict(check_upload_file(&p, &Err("e".to_string()))), "待上传录像不存在: e");
    assert_eq!(
        conflict(check_upload_file(&p, &facts(true, 99))),
        "录像大小发生变化，拒绝上传（入队 100 bytes，当前 99 bytes）。"
    );
    match check_upload_file(&p, &facts(true, 100)) {
        PartChange::SetState { state, .. } => assert_eq!(state, State::UploadingFile),
        other => panic!("{other:?}"),
    }
    match after_upload(&p, Err("e".to_string()), 1_000) {
        PartChange::RetryUpload { attempts, next_retry_at, error } => {
            assert_eq!((attempts, next_retry_at, error.as_str()), (1, 1_030, "e"));
        }
        other => panic!("{other:?}"),
    }
    match after_upload(&p, Ok("r".to_string()), 1_000) {
        PartChange::FileUploaded { filename } => assert_eq!(filename, "r"),
        other => panic!("{other:?}"),
    }
}

#[test]
fn a_submission_is_created_once_and_then_extended() {
    let mut p = part(1, State::FileUploaded);
    let mut s = session("s", 0, vec![p.clone()]);
    assert_eq!(
        submission_call(&s, &p).unwrap_err(),
        "FILE_UPLOADED 状态缺少 remote_filename。"
    );
    p.remote_filename = Some("r".to_string());
    assert!(matches!(submission_call(&s, &p), Ok(SubmissionCall::Create { .. })));
    s.aid = Some(7);
    assert!(matches!(submission_call(&s, &p), Ok(SubmissionCall::Append { aid: 7, .. })));
    match submission_started() {
        PartChange::SetState { state, .. } => assert_eq!(state, State::Submitting),
        other => panic!("{other:?}"),
    }
    let e = || Err("e".to_string());
    assert!(matches!(
        after_append(Ok(()), &Ok(false), 100),
        PartChange::Processing { attempts: 0, next_retry_at: 103, error: None }
    ));
    assert!(matches!(after_append(e(), &Ok(true), 100), PartChange::Verified));
    assert!(matches!(after_append(e(), &Ok(false), 100), PartChange::Uncertain { .. }));
    assert!(matches!(
        after_append(e(), &Err("x".to_string()), 100),
        PartChange::Uncertain { .. }
    ));
    let made = BilibiliSubmissionRef { aid: 7, bvid: Some("BV".to_string()) };
    assert!(matches!(
        after_create(Ok(made), 100),
        PartChange::Created { aid: 7, next_retry_at: 103, .. }
    ));
    match after_create(Err("lost".to_string()), 100) {
        PartChange::Uncertain { error } => assert_eq!(error, "lost"),
        other => panic!("{other:?}"),
    }
}

#[test]
fn an_interrupted_submission_is_looked_up_but_never_repeated() {
    let mut p = part(1, State::Submitting);
    let mut s = session("s", 0, vec![]);
    match recovery_lookup(&s, &p) {
        RemoteLookup::Settled(PartChange::Conflict { error }) => {
            assert_eq!(error, "SUBMITTING 状态缺少 remote_filename。")
        }
        other => panic!("{other:?}"),
    }
    p.remote_filename = Some("r".to_string());
    match recovery_lookup(&s, &p) {
        RemoteLookup::Settled(PartChange::Uncertain { error }) => assert_eq!(
            error,
            "App 在首次投稿请求期间中断且 aid 尚未持久化；为避免重复投稿，已停止自动重试。"
        ),
        other => panic!("{other:?}"),
    }
    s.aid = Some(9);
    assert!(matches!(recovery_lookup(&s, &p), RemoteLookup::Find { aid: 9, .. }));
    assert!(matches!(after_recovery_lookup(&p, Ok(true), 0), PartChange::Verified));
    match after_recovery_lookup(&p, Ok(false), 0) {
        PartChange::Uncertain { error } => assert_eq!(
            error,
            "App 在追加分P请求期间中断，远端暂未确认该 P；为避免重复分P，已停止自动追加。"
        ),
        other => panic!("{other:?}"),
    }
    assert!(matches!(
        after_recovery_lookup(&p, Err("e".to_string()), 100),
        PartChange::Processing { attempts: 1, next_retry_at: 105, .. }
    ));
}

#[test]
fn a_part_is_looked_for_eight_times() {
    let mut p = part(1, State::RemoteProcessing);
    let mut s = session("s", 0, vec![]);
    assert_eq!(
        verification_lookup(&s, &p).unwrap_err(),
        "REMOTE_PROCESSING 状态缺少 aid。"
    );
    s.aid = Some(9);
    assert_eq!(
        verification_lookup(&s, &p).unwrap_err(),
        "REMOTE_PROCESSING 状态缺少 remote_filename。"
    );
    p.remote_filename = Some("r".to_string());
    assert_eq!(verification_lookup(&s, &p), Ok((9, "r".to_string())));
    p.retry_count = 6;
    match after_verification(&p, Ok(false), 100) {
        PartChange::Processing { attempts, next_retry_at, error } => {
            assert_eq!((attempts, next_retry_at), (7, 260));
            assert_eq!(error.as_deref(), Some("等待 B站远端确认分P。"));
        }
        other => panic!("{other:?}"),
    }
    p.retry_count = 7;
    match after_verification(&p, Ok(false), 100) {
        PartChange::Uncertain { error } => assert_eq!(
            error,
            "B站已接受提交，但多次检查仍无法确认该分P；本地录像保留，停止自动重复提交。"
        ),
        other => panic!("{other:?}"),
    }
    assert!(matches!(after_verification(&p, Ok(true), 100), PartChange::Verified));
    assert!(matches!(
        after_verification(&p, Err("e".to_string()), 100),
        PartChange::Processing { attempts: 8, .. }
    ));
    let names = vec!["a".to_string(), "r".to_string()];
    assert!(remote_contains_filename(&names, "r"));
    assert!(!remote_contains_filename(&names, "b"));
}

#[test]
fn changes_reach_the_queue() {
    let mut queue = store(vec![session("s", 0, vec![part(1, State::Submitting)])]);
    let created =
        PartChange::Created { aid: 5, bvid: Some("BV5".to_string()), next_retry_at: 103 };
    change_part(&mut queue, "s", 1, created).unwrap();
    assert_eq!(queue.sessions[0].aid, Some(5));
    assert_eq!(queue.sessions[0].submission_state, "ACTIVE");
    assert_eq!(queue.sessions[0].segments[0].state, State::RemoteProcessing);
    let doubt = PartChange::Uncertain { error: "e".to_string() };
    change_part(&mut queue, "s", 1, doubt).unwrap();
    assert_eq!(queue.sessions[0].submission_state, "UNCERTAIN");
    assert_eq!(
        change_part(&mut queue, "x", 1, PartChange::Verified),
        Err("B站 liveSession 不存在。".to_string())
    );
    assert_eq!(
        change_part(&mut queue, "s", 2, PartChange::Verified),
        Err("B站 segment 不存在。".to_string())
    );
    assert_eq!(
        change_part(&mut queue, "x", 1, submission_started()),
        Err("B站 segment 不存在。".to_string())
    );
    assert_eq!(change_part(&mut queue, "x", 1, PartChange::LocalDeleted), Ok(()));
    let retry = PartChange::RetryUpload { attempts: 2, next_retry_at: 9, error: "e".to_string() };
    change_part(&mut queue, "s", 1, retry).unwrap();
    assert_eq!(queue.sessions[0].segments[0].state, State::RetryPending);
    change_part(&mut queue, "s", 1, PartChange::Conflict { error: "c".to_string() }).unwrap();
    assert_eq!(queue.sessions[0].segments[0].next_retry_at, 0);
    change_part(&mut queue, "s", 1, PartChange::Verified).unwrap();
    change_part(&mut queue, "s", 1, PartChange::LocalDeleted).unwrap();
    assert!(queue.sessions[0].segments[0].local_deleted);
}

#[test]
fn only_verified_files_are_deleted() {
    let mut gone = part(3, State::RemoteVerified);
    gone.local_deleted = true;
    let s = session(
        "s",
        0,
        vec![part(1, State::RemoteVerified), part(2, State::RemoteProcessing), gone],
    );
    let mut settings = BilibiliSettings::default();
    let files = deletable_files(&settings, &s);
    assert_eq!(files.len(), 1);
    assert_eq!(files[0].local_path, "/p1.mp4");
    settings.delete_after_success = false;
    assert!(deletable_files(&settings, &s).is_empty());
}

#[test]
fn a_complete_session_gets_its_final_title() {
    let mut s = session("s", 0, vec![part(1, State::RemoteVerified)]);
    s.recording_complete = true;
    s.aid = Some(1);
    s.submission_state = "ACTIVE".to_string();
    let mut queue = store(vec![s]);
    queue.settings.auto_upload = true;
    assert_eq!(session_to_finalize(&queue).unwrap().live_session_id, "s");
    mark_title_final(&mut queue, "s");
    assert_eq!(queue.sessions[0].submission_state, "FINALIZED");
    assert!(session_to_finalize(&queue).is_none());
    queue.sessions[0].submission_state = "ACTIVE".to_string();
    queue.settings.auto_upload = false;
    assert!(session_to_finalize(&queue).is_none());
}

#[test]
fn titles_hold_the_local_times() {
    let p = part(1, State::ReadyToUpload);
    assert_eq!(part_title_from(&p, &at("20", "00"), &at("21", "30")), "20:00-21:30");
    assert_eq!(part_title_from(&p, &at("20", "00"), &None), "20:00-20");
    let mut s = session("s", 5, vec![p.clone(), part(2, State::ReadyToUpload)]);
    s.segments[1].ended_at = 77;
    assert_eq!(session_title_end(&s, Some(3)), 3);
    assert_eq!(session_title_end(&s, None), 77);
    assert_eq!(
        session_title_from(&s, 77, &at("20", "00"), &at("21", "30")),
        "甲｜2024-05-06｜20:00-21:30"
    );
    assert_eq!(session_title_from(&s, 77, &None, &None), "甲｜5｜5-77");
    assert_eq!(part_title(&p).len(), 11);
    let reading = |timestamp| Some(local_time(timestamp));
    assert_eq!(
        part_title(&p),
        part_title_from(&p, &reading(p.started_at), &reading(p.ended_at))
    );
    assert_eq!(
        session_title(&s, Some(7_200)),
        session_title_from(&s, 7_200, &reading(s.session_started_at), &reading(7_200))
    );
    assert!(session_title(&s, Some(100)).starts_with("甲｜"));
    s.session_ended_at = Some(50);
    assert_eq!(session_title_end(&s, None), 50);
    s.session_ended_at = None;
    s.segments.clear();
    assert_eq!(session_title_end(&s, None), 5);
    assert_eq!(submission_description("room"), "自动直播回放\n直播间：room");
}
