use live_replay::replay_attempt::{
    advance, AttemptAction, AttemptEvent, AttemptRows, AttemptStage, CreationFailure,
};
use live_replay::replay_files::{
    check_remuxed, cleanup_plan, custom_postprocessor, delete_failed, initial_paths, needs_remux,
    part_title, paths_to_delete, plan_hook, prepared_paths, processing_result, remux_args,
    remux_target, reuses_remux, CleanupPlan, HookStep,
};
use live_replay::replay_queue::{
    after_await_failed, after_failure, await_decision, check_append_order, conflict_message,
    count_pending, creation_failed, next_ready_segment, place_state, queue_decision,
    remote_decision, remote_number, remote_part_state, session_can_finish, submission_plan, AwaitDecision,
    FailureDecision, QueueDecision, RemoteDecision, RemotePartState, RemoteVideo, SubmissionPlan,
};
use live_replay::replay_rows::{
    mark_cleanup_pending, mark_conflict, mark_recording_complete, mark_remote_verified,
    mark_retry, mark_session_complete, mark_session_recording, mark_submission_uncertain,
    mark_terminal, mark_uploading, reopen_session, save_prepared_paths, save_remote_ids,
    segment_is_terminal, JobRow, SegmentRow, SessionRow, Terminal,
};
use live_replay::statuses::{CleanupState, JobStatus, SegmentStatus, SessionStatus, SubmitState};

fn session() -> SessionRow {
    SessionRow {
        id: 1,
        live_streamer_id: 9,
        live_title: "标题".to_string(),
        aid: None,
        bvid: None,
        submit_state: SubmitState::New,
        status: SessionStatus::Recording,
        delete_after_success: false,
        preserve_danmaku: true,
        expected_parts: 2,
        verified_parts: 0,
        next_part_to_upload: 1,
        ended_at: None,
        last_activity_at: 10,
        last_error: None,
    }
}

fn segment(part_number: i64, status: SegmentStatus) -> SegmentRow {
    SegmentRow {
        id: part_number + 100,
        session_id: 1,
        part_number,
        file_path: format!("/q/{part_number}.flv"),
        processed_file_path: None,
        danmaku_file_path: None,
        status,
        cleanup_state: None,
        uploaded_filename: None,
        remote_filename: None,
        retry_count: 0,
        next_retry_at: None,
        last_error: None,
        file_size: 5,
        uploaded_at: None,
        verified_at: None,
        deleted_at: None,
    }
}

fn job(part_number: i64) -> JobRow {
    JobRow {
        id: part_number + 200,
        segment_id: part_number + 100,
        status: JobStatus::Queued,
        attempts: 0,
        locked_at: None,
        next_attempt_at: None,
        last_error: None,
    }
}

fn rows() -> AttemptRows {
    AttemptRows { session: session(), segment: segment(1, SegmentStatus::Queued), job: job(1) }
}

fn run(rows: &mut AttemptRows, events: Vec<AttemptEvent>) -> AttemptAction {
    let mut stage = AttemptStage::Begin;
    let mut action = AttemptAction::Finish;
    for event in events {
        (stage, action) = advance(rows, stage, event, 50);
    }
    action
}

fn uploaded() -> AttemptEvent {
    AttemptEvent::Uploaded(Ok(("/q/1.mp4".to_string(), "remote1".to_string())))
}

#[test]
fn a_first_part_is_uploaded_submitted_and_awaited() {
    let mut r = rows();
    let action = run(
        &mut r,
        vec![
            AttemptEvent::Started,
            AttemptEvent::Initialized(Ok(())),
            uploaded(),
            AttemptEvent::Built(Ok(())),
        ],
    );
    assert!(matches!(action, AttemptAction::CreateSubmission));
    assert_eq!(r.session.submit_state, SubmitState::Submitting);
    assert_eq!(r.segment.status, SegmentStatus::Submitting);
    assert_eq!(r.job.attempts, 1);
    let (stage, action) = advance(
        &mut r,
        AttemptStage::Creating,
        AttemptEvent::Created(Ok((7, Some("BV7".to_string())))),
        60,
    );
    assert!(matches!(action, AttemptAction::LookAtRemote { aid: 7 }));
    assert_eq!((r.session.aid, r.session.submit_state.clone()), (Some(7), SubmitState::Created));
    let (stage, action) = advance(
        &mut r,
        stage,
        AttemptEvent::RemoteSeen(Ok(RemotePartState::MatchingProcessing)),
        61,
    );
    assert!(matches!(action, AttemptAction::PauseThenLook { aid: 7 }));
    let (_, action) =
        advance(&mut r, stage, AttemptEvent::RemoteSeen(Ok(RemotePartState::MatchingReady)), 62);
    assert!(matches!(action, AttemptAction::CleanUp));
    assert_eq!(r.segment.status, SegmentStatus::RemoteVerified);
    assert_eq!(r.segment.cleanup_state, Some(CleanupState::Pending));
    assert_eq!(r.segment.verified_at, Some(62));
}

#[test]
fn a_lost_answer_stops_the_submission() {
    let mut r = rows();
    let action = run(
        &mut r,
        vec![
            AttemptEvent::Started,
            AttemptEvent::Initialized(Ok(())),
            uploaded(),
            AttemptEvent::Built(Ok(())),
            AttemptEvent::Created(Err(CreationFailure::Request("timeout".to_string()))),
        ],
    );
    assert!(matches!(action, AttemptAction::Fail(e) if e == "timeout"));
    assert_eq!(r.session.submit_state, SubmitState::Uncertain);
    assert_eq!(r.session.status, SessionStatus::SubmissionUncertain);
    assert_eq!(r.segment.status, SegmentStatus::SubmissionUncertain);
    assert_eq!(
        r.job.last_error.as_deref(),
        Some("首个投稿返回结果不确定；已停止自动重投，避免生成重复稿件")
    );
    let action = run(&mut r, vec![AttemptEvent::Started, AttemptEvent::Initialized(Ok(()))]);
    assert!(matches!(action, AttemptAction::Finish));
    assert_eq!(
        r.session.last_error.as_deref(),
        Some("首个投稿请求可能已经被B站接收；为防止重复投稿，已暂停并等待绑定AID/BVID")
    );
}

#[test]
fn a_known_submission_is_extended_in_order() {
    let mut r = rows();
    r.session.aid = Some(7);
    r.segment.remote_filename = Some("remote1".to_string());
    let action = run(
        &mut r,
        vec![
            AttemptEvent::Started,
            AttemptEvent::Initialized(Ok(())),
            AttemptEvent::RemoteSeen(Ok(RemotePartState::Missing)),
        ],
    );
    assert!(matches!(action, AttemptAction::Append { aid: 7 }));
    let (_, action) = advance(
        &mut r,
        AttemptStage::Appending { aid: 7 },
        AttemptEvent::Appended(Err("e".to_string())),
        1,
    );
    assert!(matches!(action, AttemptAction::Fail(e) if e == "e"));
    let (stage, _) =
        advance(&mut r, AttemptStage::Appending { aid: 7 }, AttemptEvent::Appended(Ok(())), 1);
    assert!(matches!(stage, AttemptStage::Awaiting { aid: 7, look: 0 }));
    assert_eq!(check_append_order(1, 2), Ok(()));
    assert_eq!(
        check_append_order(3, 2),
        Err("remote part order mismatch: remote=3, expected part=2".to_string())
    );
}

#[test]
fn another_file_in_the_place_is_a_conflict() {
    let mut r = rows();
    r.session.aid = Some(7);
    r.segment.remote_filename = Some("remote1".to_string());
    let other = || AttemptEvent::RemoteSeen(Ok(RemotePartState::Conflict("x".to_string())));
    let (stage, action) =
        advance(&mut r, AttemptStage::Awaiting { aid: 7, look: 3 }, other(), 1);
    assert!(matches!(action, AttemptAction::LookAtRemote { aid: 7 }));
    let (_, action) = advance(&mut r, stage, other(), 2);
    assert!(matches!(action, AttemptAction::Finish));
    assert_eq!(r.segment.status, SegmentStatus::Conflict);
    assert_eq!(
        r.session.last_error.as_deref(),
        Some("远端 P1 文件标识为 x，本地上传标识为 remote1")
    );
    assert_eq!(
        conflict_message(1, "x", "remote1"),
        "远端 P1 文件标识为 x，本地上传标识为 remote1"
    );
}

#[test]
fn a_part_that_never_gets_ready_fails_the_attempt() {
    let mut r = rows();
    let seen = || AttemptEvent::RemoteSeen(Ok(RemotePartState::Missing));
    let (stage, action) =
        advance(&mut r, AttemptStage::Awaiting { aid: 7, look: 29 }, seen(), 1);
    assert!(matches!(action, AttemptAction::PauseThenLook { aid: 7 }));
    let (_, action) = advance(&mut r, stage, seen(), 2);
    assert!(
        matches!(action, AttemptAction::Fail(e) if e == "remote part verification timed out: aid=7, part=1")
    );
    let (stage, _) = advance(
        &mut r,
        AttemptStage::Awaiting { aid: 7, look: 0 },
        AttemptEvent::RemoteSeen(Err("net".to_string())),
        1,
    );
    let (_, action) = advance(&mut r, stage, seen(), 2);
    assert!(matches!(action, AttemptAction::Fail(e) if e == "net"));
}

#[test]
fn a_verified_part_is_only_cleaned_up() {
    for status in [SegmentStatus::RemoteVerified, SegmentStatus::CleanupPending] {
        let mut r = rows();
        r.segment.status = status;
        let action = run(&mut r, vec![AttemptEvent::Started]);
        assert!(matches!(action, AttemptAction::CleanUp));
        assert_eq!(r.job.attempts, 0);
    }
}

#[test]
fn failures_before_the_submission_fail_the_attempt() {
    let e = || Err("e".to_string());
    let failed = |events| {
        let action = run(&mut rows(), events);
        assert!(matches!(action, AttemptAction::Fail(m) if m == "e"));
    };
    failed(vec![AttemptEvent::Started, AttemptEvent::Initialized(e())]);
    failed(vec![
        AttemptEvent::Started,
        AttemptEvent::Initialized(Ok(())),
        AttemptEvent::Uploaded(Err("e".to_string())),
    ]);
    failed(vec![
        AttemptEvent::Started,
        AttemptEvent::Initialized(Ok(())),
        uploaded(),
        AttemptEvent::Built(e()),
    ]);
    let mut r = rows();
    let (_, action) = advance(
        &mut r,
        AttemptStage::Creating,
        AttemptEvent::Created(Err(CreationFailure::Answer("e".to_string()))),
        1,
    );
    assert!(matches!(action, AttemptAction::Fail(m) if m == "e"));
    assert_eq!(r.session.submit_state, SubmitState::New);
}

#[test]
fn the_queue_takes_the_part_that_is_due() {
    let mut s = session();
    let mut waiting = segment(1, SegmentStatus::RetryWait);
    waiting.next_retry_at = Some(100);
    let mut parts = vec![segment(2, SegmentStatus::Queued), waiting];
    assert_eq!(next_ready_segment(&s, &parts, 99), None);
    assert_eq!(queue_decision(&s, &parts, 99), QueueDecision::Wait(2));
    assert_eq!(queue_decision(&s, &parts, 100), QueueDecision::Process(1));
    parts[1].status = SegmentStatus::Conflict;
    assert_eq!(next_ready_segment(&s, &parts, 100), None);
    parts[1].status = SegmentStatus::Deleted;
    parts[0].status = SegmentStatus::Retained;
    assert_eq!(count_pending(&parts, 1), 0);
    assert!(!session_can_finish(&s, &parts));
    s.status = SessionStatus::RecordingComplete;
    assert!(session_can_finish(&s, &parts));
    assert_eq!(queue_decision(&s, &parts, 0), QueueDecision::Finish);
    assert!(segment_is_terminal(&SegmentStatus::Deleted));
    assert!(!segment_is_terminal(&SegmentStatus::Conflict));
}

#[test]
fn failures_wait_for_a_retry_or_a_hand() {
    let mut part = segment(1, SegmentStatus::Uploading);
    assert_eq!(after_failure(&part), FailureDecision::Retry { attempt: 1, delay: 60 });
    part.retry_count = 4;
    assert_eq!(after_failure(&part), FailureDecision::Retry { attempt: 5, delay: 3600 });
    part.retry_count = i64::MAX;
    assert_eq!(after_failure(&part), FailureDecision::Retry { attempt: i64::MAX, delay: 3600 });
    part.status = SegmentStatus::Conflict;
    assert_eq!(after_failure(&part), FailureDecision::WaitForHand(60));
    part.status = SegmentStatus::SubmissionUncertain;
    assert_eq!(after_failure(&part), FailureDecision::WaitForHand(60));
}

#[test]
fn the_remote_description_is_read() {
    let data = r#"{"videos":[{"filename":"a","duration":12},{"filename":""},{"filename":"c","duration":0}]}"#;
    assert_eq!(remote_number(3), 3);
    assert_eq!(remote_number(-1), usize::MAX);
    assert!(matches!(remote_part_state(data, usize::MAX, "a"), RemotePartState::Missing));
    assert!(matches!(remote_part_state(data, 1, "a"), RemotePartState::MatchingReady));
    assert!(matches!(remote_part_state(data, 0, "a"), RemotePartState::MatchingReady));
    assert!(matches!(remote_part_state(data, 1, "b"), RemotePartState::Conflict(n) if n == "a"));
    assert!(matches!(remote_part_state(data, 2, "b"), RemotePartState::MatchingProcessing));
    assert!(matches!(remote_part_state(data, 3, "c"), RemotePartState::MatchingProcessing));
    assert!(matches!(remote_part_state(data, 4, "c"), RemotePartState::Missing));
    assert!(matches!(remote_part_state(r#"{"videos":{"0":{}}}"#, 1, "c"), RemotePartState::Missing));
    assert!(matches!(remote_part_state("no json", 1, "c"), RemotePartState::Missing));
    let video = |filename: Option<&str>, duration| {
        Some(RemoteVideo { filename: filename.map(str::to_string), duration })
    };
    assert!(matches!(place_state(None, "a"), RemotePartState::Missing));
    assert!(matches!(place_state(video(None, Some(3)), "a"), RemotePartState::MatchingProcessing));
    assert!(matches!(place_state(video(Some("a"), Some(3)), "a"), RemotePartState::MatchingReady));
    assert!(matches!(place_state(video(Some("a"), None), "a"), RemotePartState::MatchingProcessing));
}

#[test]
fn looks_at_the_remote_part_are_decided() {
    assert!(matches!(
        remote_decision(&RemotePartState::Missing, 1, "a"),
        RemoteDecision::Append
    ));
    assert!(matches!(
        remote_decision(&RemotePartState::MatchingProcessing, 1, "a"),
        RemoteDecision::Await
    ));
    let other = RemotePartState::Conflict("x".to_string());
    assert!(matches!(remote_decision(&other, 1, "a"), RemoteDecision::Stop(_)));
    assert!(matches!(await_decision(&RemotePartState::Missing, 28, 7, 1, "a"), AwaitDecision::LookAgain));
    assert!(matches!(await_decision(&RemotePartState::Missing, 29, 7, 1, "a"), AwaitDecision::TimedOut(_)));
    assert!(
        matches!(await_decision(&other, 0, 7, 1, "a"), AwaitDecision::GiveUp(m) if m == "remote identity conflict at P1: expected a, got x")
    );
    assert_eq!(
        after_await_failed(&Ok(RemotePartState::Conflict("x".to_string())), 1, "a").as_deref(),
        Some("远端 P1 文件标识为 x，本地上传标识为 a")
    );
    assert_eq!(after_await_failed(&Err("e".to_string()), 1, "a"), None);
    assert!(creation_failed().starts_with("首个投稿返回结果不确定"));
    let mut s = session();
    assert!(matches!(submission_plan(&s), SubmissionPlan::Create));
    s.submit_state = SubmitState::Submitting;
    assert!(matches!(submission_plan(&s), SubmissionPlan::Stop(_)));
    s.aid = Some(4);
    assert!(matches!(submission_plan(&s), SubmissionPlan::CheckRemote(4)));
}

#[test]
fn a_finished_part_moves_the_session_on() {
    let (mut s, mut p, mut j) = (session(), segment(1, SegmentStatus::RemoteVerified), job(1));
    j.locked_at = Some(3);
    mark_terminal(&mut s, &mut p, &mut j, Terminal::Deleted, 70);
    assert_eq!((s.verified_parts, s.next_part_to_upload), (1, 2));
    assert_eq!((p.status.clone(), p.cleanup_state.clone()), (SegmentStatus::Deleted, Some(CleanupState::Deleted)));
    assert_eq!((p.deleted_at, p.verified_at), (Some(70), None));
    assert_eq!((j.status.clone(), j.locked_at), (JobStatus::Complete, None));
    mark_terminal(&mut s, &mut p, &mut j, Terminal::Retained, 80);
    assert_eq!((s.verified_parts, s.next_part_to_upload), (1, 2));
    assert_eq!(p.verified_at, Some(80));
}

#[test]
fn rows_follow_an_upload() {
    let (mut s, mut p, mut j) = (session(), segment(1, SegmentStatus::Queued), job(1));
    mark_uploading(&mut p, &mut j, 5);
    assert_eq!((p.status.clone(), j.status.clone(), j.attempts), (SegmentStatus::Uploading, JobStatus::Uploading, 1));
    mark_retry(&mut s, &mut p, &mut j, 2, 300, "e".to_string(), 1_000);
    assert_eq!((p.status.clone(), p.retry_count, p.next_retry_at), (SegmentStatus::RetryWait, 2, Some(1_300)));
    assert_eq!(s.status, SessionStatus::Retrying);
    s.ended_at = Some(1);
    mark_retry(&mut s, &mut p, &mut j, 3, 300, "e".to_string(), 1_000);
    assert_eq!(s.status, SessionStatus::RecordingComplete);
    save_prepared_paths(&mut p, "/q/1.mp4".to_string(), Some("/q/1.xml".to_string()));
    assert_eq!(p.processed_file_path.as_deref(), Some("/q/1.mp4"));
    save_remote_ids(&mut s, 7, None);
    assert_eq!((s.aid, s.submit_state.clone()), (Some(7), SubmitState::Created));
    mark_submission_uncertain(&mut s, &mut p, &mut j, "m".to_string());
    assert_eq!(s.submit_state, SubmitState::Uncertain);
    mark_conflict(&mut s, &mut p, &mut j, "m".to_string());
    assert_eq!((s.status.clone(), p.status.clone(), j.status.clone()), (SessionStatus::Conflict, SegmentStatus::Conflict, JobStatus::Conflict));
    mark_remote_verified(&mut p, &mut j, 9);
    mark_uploading(&mut p, &mut j, 10);
    assert_eq!(p.status, SegmentStatus::RemoteVerified);
    mark_cleanup_pending(&mut p);
    assert_eq!(p.status, SegmentStatus::CleanupPending);
}

#[test]
fn rows_follow_a_session() {
    let mut s = session();
    mark_recording_complete(&mut s, 30);
    assert_eq!((s.status.clone(), s.ended_at), (SessionStatus::RecordingComplete, Some(30)));
    mark_session_recording(&mut s, 40);
    assert_eq!((s.status.clone(), s.ended_at, s.last_activity_at), (SessionStatus::Recording, None, 40));
    s.verified_parts = 2;
    mark_recording_complete(&mut s, 50);
    assert_eq!(s.status, SessionStatus::Complete);
    s.last_error = Some("e".to_string());
    reopen_session(&mut s, 60);
    assert_eq!((s.status.clone(), s.last_error.as_deref()), (SessionStatus::Recording, None));
    mark_session_complete(&mut s, 70);
    assert_eq!((s.status.clone(), s.ended_at), (SessionStatus::Complete, Some(70)));
    mark_session_complete(&mut s, 80);
    assert_eq!(s.ended_at, Some(70));
}

#[test]
fn files_are_remuxed_without_reencoding() {
    assert!(needs_remux("/q/a.flv"));
    assert!(!needs_remux("/q/a.MP4"));
    assert_eq!(remux_target("/q/a.ts"), "/q/a.mp4");
    let args = remux_args("/q/a.TS", "/q/a.mp4");
    assert_eq!(
        args,
        [
            "-hide_banner", "-loglevel", "warning", "-y", "-i", "/q/a.TS", "-map", "0:v?", "-map",
            "0:a?", "-c", "copy", "-bsf:a", "aac_adtstoasc", "-movflags", "+faststart",
            "-avoid_negative_ts", "make_zero", "/q/a.mp4",
        ]
    );
    assert!(!remux_args("/q/a.flv", "/q/a.mp4").contains(&"-bsf:a".to_string()));
    assert!(reuses_remux(Some(1)) && !reuses_remux(Some(0)) && !reuses_remux(None));
    assert_eq!(check_remuxed("a", true, 1), Ok(()));
    assert_eq!(check_remuxed("a", false, 1), Err("ffmpeg remux failed for a".to_string()));
    assert_eq!(check_remuxed("a", true, 0), Err("ffmpeg produced an empty MP4".to_string()));
}

#[test]
fn processing_steps_move_files_and_run_nothing() {
    let mut part = segment(1, SegmentStatus::Queued);
    part.danmaku_file_path = Some("/q/1.xml".to_string());
    assert_eq!(prepared_paths(&part), ["/q/1.flv", "/q/1.xml"]);
    let paths = initial_paths(&part, "/q/1.mp4".to_string());
    assert_eq!(paths, ["/q/1.mp4", "/q/1.xml"]);
    let plan = plan_hook(&paths, &HookStep::Move { mv: "/done".to_string() });
    assert_eq!(plan.directory.as_deref(), Some("/done"));
    assert_eq!(plan.moves[1].destination, "/done/1.xml");
    assert_eq!(plan.outcome.unwrap(), ["/done/1.mp4", "/done/1.xml"]);
    assert_eq!(plan_hook(&paths, &HookStep::Remux).outcome.unwrap(), paths);
    for step in [HookStep::Run, HookStep::Remove("rm".to_string())] {
        assert_eq!(
            plan_hook(&paths, &step).outcome.unwrap_err(),
            "上传前处理器不允许 run/rm；它们无法保证路径和重试幂等，请改到上传后手动处理"
        );
    }
    let nameless = plan_hook(&vec!["a".to_string(), "/".to_string()], &HookStep::Move { mv: "/d".to_string() });
    assert_eq!(nameless.moves.len(), 1);
    assert_eq!(nameless.outcome.unwrap_err(), "invalid processor path");
    assert_eq!(
        processing_result(&paths),
        Ok(("/q/1.mp4".to_string(), Some("/q/1.xml".to_string())))
    );
    assert_eq!(processing_result(&vec![]), Err("processor removed upload path".to_string()));
}

#[test]
fn only_files_of_the_part_are_deleted() {
    let mut part = segment(1, SegmentStatus::RemoteVerified);
    part.processed_file_path = Some("/q/1.mp4".to_string());
    part.danmaku_file_path = Some("/q/1.xml".to_string());
    assert_eq!(paths_to_delete(&part, true), ["/q/1.flv", "/q/1.mp4"]);
    assert_eq!(paths_to_delete(&part, false), ["/q/1.flv", "/q/1.mp4", "/q/1.xml"]);
    part.processed_file_path = Some("/q/1.flv".to_string());
    assert_eq!(paths_to_delete(&part, true), ["/q/1.flv"]);
    part.processed_file_path = Some("/q//./1.flv".to_string());
    assert_eq!(paths_to_delete(&part, false), ["/q/1.flv", "/q/1.xml"]);
    let mut keeps = session();
    keeps.delete_after_success = false;
    assert!(matches!(
        cleanup_plan(&keeps, &part, &vec![]),
        CleanupPlan::Retain { remove: None }
    ));
    assert_eq!(delete_failed("p", "e"), "failed to delete verified file p: e");
}

#[test]
fn cleaning_up_keeps_files_unless_told_otherwise() {
    let mut s = session();
    let mut part = segment(1, SegmentStatus::RemoteVerified);
    part.processed_file_path = Some("/q/1.mp4".to_string());
    match cleanup_plan(&s, &part, &vec![]) {
        CleanupPlan::Retain { remove } => assert_eq!(remove.as_deref(), Some("/q/1.flv")),
        other => panic!("{other:?}"),
    }
    s.delete_after_success = true;
    match cleanup_plan(&s, &part, &vec![HookStep::Remove("rm".to_string())]) {
        CleanupPlan::Delete { paths } => assert_eq!(paths, ["/q/1.flv", "/q/1.mp4"]),
        other => panic!("{other:?}"),
    }
    assert!(custom_postprocessor(&vec![HookStep::Run]));
    assert!(custom_postprocessor(&vec![HookStep::Remove("del".to_string())]));
    assert!(!custom_postprocessor(&vec![]));
    match cleanup_plan(&s, &part, &vec![HookStep::Run]) {
        CleanupPlan::Retain { remove } => assert_eq!(remove, None),
        other => panic!("{other:?}"),
    }
}

#[test]
fn part_titles_are_short() {
    let mut part = segment(3, SegmentStatus::Queued);
    assert_eq!(part_title(&part), "P3 3");
    part.processed_file_path = Some(format!("/q/{}.mp4", "播".repeat(100)));
    assert_eq!(part_title(&part), format!("P3 {}", "播".repeat(77)));
    part.processed_file_path = Some("/".to_string());
    assert_eq!(part_title(&part), "P3 直播回放");
}
