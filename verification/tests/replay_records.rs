use live_replay::replay_outbox::{
    after_persist_failed, filesystem_outbox_max_part, next_part_number, outbox_path,
    outbox_quarantine_path, outbox_temp_path, persist_outbox_record, queue_dir, rollback_moves,
    staged_danmaku_path, staged_path, staged_record, OutboxRecord, SessionTables,
};
use live_replay::replay_recovery::{
    pending_sessions, recover_database, resume_decision, ReplayDatabase, ResumeDecision, Snapshot,
};
use live_replay::replay_rows::{JobRow, SegmentRow, SessionRow};
use live_replay::replay_sessions::{
    choose_remote_ids, complete_submission_config, cookie_source, credential_path, edits_by_web,
    env_bool, env_u64, extract_remote_ids, frozen_cookie, legacy_session_key, new_session_row,
    new_session_token, reconnect_window, reusable_session, session_token, upload_threads,
    ActiveSessions, ResponseData, SubmissionConfig,
};
use live_replay::statuses::{CleanupState, JobStatus, SegmentStatus, SessionStatus, SubmitState};

fn session(id: i64) -> SessionRow {
    new_session_row(id, 9, "标题".to_string(), None, None, 10)
}

fn segment(id: i64, session_id: i64, part_number: i64, status: SegmentStatus) -> SegmentRow {
    SegmentRow {
        id,
        session_id,
        part_number,
        file_path: format!("/q/{id}.flv"),
        processed_file_path: None,
        danmaku_file_path: None,
        status,
        cleanup_state: None,
        uploaded_filename: None,
        remote_filename: None,
        retry_count: 0,
        next_retry_at: Some(3),
        last_error: None,
        file_size: 5,
        uploaded_at: None,
        verified_at: None,
        deleted_at: None,
    }
}

fn job(segment_id: i64, status: JobStatus) -> JobRow {
    JobRow {
        id: segment_id + 200,
        segment_id,
        status,
        attempts: 1,
        locked_at: Some(1),
        next_attempt_at: Some(2),
        last_error: None,
    }
}

fn record(session_id: i64, part_number: i64) -> OutboxRecord {
    staged_record(
        session_id,
        part_number,
        format!("/q/{part_number}"),
        "/v/a.flv".to_string(),
        None,
        77,
        5,
    )
}

#[test]
fn staged_files_have_their_names() {
    assert_eq!(queue_dir(Some("/rec"), 4), "/rec/.live-replay-queue/4");
    assert_eq!(queue_dir(None, 4), "./.live-replay-queue/4");
    let staged = staged_path("/rec/.live-replay-queue/4", 7, 123, Some("a.flv"));
    assert_eq!(staged, "/rec/.live-replay-queue/4/000007-123-a.flv");
    assert_eq!(staged_path("q", 7, 123, None), "q/000007-123-segment.bin");
    assert_eq!(staged_danmaku_path(&staged), "/rec/.live-replay-queue/4/000007-123-a.xml");
    let moves = rollback_moves("/q/s.flv", "/v/a.flv", Some("/q/s.xml"));
    assert_eq!(moves[0].destination, "/v/a.flv");
    assert_eq!((moves[1].source.as_str(), moves[1].destination.as_str()), ("/q/s.xml", "/v/a.xml"));
    let path = outbox_path(4, 7, 123);
    assert_eq!(path, "data/replay-outbox/4-000007-123.json");
    assert_eq!(outbox_temp_path(&path), "data/replay-outbox/4-000007-123.json.tmp");
    assert_eq!(outbox_quarantine_path(&path), "data/replay-outbox/4-000007-123.json.bad");
    assert_eq!(record(4, 7).file_identity, "77:5:/q/7");
    let first = after_persist_failed(0);
    assert_eq!((first.pause_ms, first.again), (200, true));
    let last = after_persist_failed(5);
    assert_eq!((last.pause_ms, last.again), (1_200, false));
}

#[test]
fn part_numbers_are_never_given_twice() {
    let segments = vec![segment(1, 4, 3, SegmentStatus::Deleted), segment(2, 5, 9, SegmentStatus::Queued)];
    assert_eq!(next_part_number(&segments, &vec![], &vec![], 4), 4);
    assert_eq!(next_part_number(&segments, &vec![record(4, 5)], &vec![], 4), 6);
    assert_eq!(next_part_number(&segments, &vec![], &vec![record(4, 7)], 4), 8);
    assert_eq!(next_part_number(&vec![], &vec![], &vec![], 4), 1);
    assert_eq!(filesystem_outbox_max_part(&vec![record(4, 7), record(5, 9)], 4), 7);
    assert_eq!(filesystem_outbox_max_part(&vec![], 4), 0);
}

#[test]
fn a_record_is_persisted_once() {
    let mut tables = SessionTables {
        session: session(4),
        segments: vec![],
        jobs: vec![],
        outbox: vec![record(4, 1), record(4, 2)],
        files: vec![],
    };
    assert_eq!(persist_outbox_record(&mut tables, &record(4, 2), 8, 11, 21, 99), 11);
    assert_eq!(tables.session.expected_parts, 2);
    assert_eq!(tables.session.last_activity_at, 99);
    assert_eq!(tables.segments[0].part_number, 2);
    assert_eq!(tables.jobs[0].segment_id, 11);
    assert_eq!(tables.files[0].file, "/q/2");
    assert_eq!(tables.outbox.len(), 1);
    assert_eq!(persist_outbox_record(&mut tables, &record(4, 2), 8, 12, 22, 100), 11);
    assert_eq!((tables.segments.len(), tables.jobs.len(), tables.files.len()), (1, 1, 1));
}

#[test]
fn settings_come_from_the_environment() {
    for word in ["1", " TRUE ", "yes", "On"] {
        assert!(env_bool(Some(word), false));
    }
    assert!(!env_bool(Some("2"), true));
    assert!(env_bool(None, true));
    assert_eq!(env_u64(Some(" 12 "), 3), 12);
    assert_eq!(env_u64(Some("x"), 3), 3);
    assert_eq!(env_u64(None, 3), 3);
    assert_eq!(reconnect_window(None, 0), 1);
    assert_eq!(reconnect_window(None, 60), 60);
    assert_eq!(reconnect_window(Some("5"), 60), 5);
    let row = new_session_row(1, 9, "t".to_string(), Some("on"), Some("0"), 10);
    assert!(row.delete_after_success && !row.preserve_danmaku);
    assert!(!session(1).delete_after_success && session(1).preserve_danmaku);
    assert_eq!(upload_threads(0), 1);
    assert_eq!(upload_threads(5), 5);
}

#[test]
fn a_short_break_goes_on_with_the_session() {
    let mut old = session(1);
    old.ended_at = Some(100);
    let mut newer = session(2);
    newer.ended_at = Some(100);
    let mut other = session(3);
    other.live_title = "x".to_string();
    let sessions = vec![newer, old, other];
    assert_eq!(reusable_session(&sessions, 9, "标题", 160, 60), Some(0));
    assert_eq!(reusable_session(&sessions, 9, "标题", 161, 60), None);
    assert_eq!(reusable_session(&sessions, 8, "标题", 160, 60), None);
    assert_eq!(reusable_session(&sessions, 9, "x", 1_000_000, 60), Some(2));
}

#[test]
fn sessions_get_keys_and_frozen_credentials() {
    assert_eq!(session_token(3, 12, 0xabc), "lr-3-12-0000000000000abc");
    let a = new_session_token(3, 12);
    let b = new_session_token(3, 12);
    assert!(a.starts_with("lr-3-12-") && a.len() == "lr-3-12-".len() + 16);
    assert_ne!(a, b);
    assert_eq!(legacy_session_key(4), "legacy-session-4");
    assert_eq!(cookie_source(&None), "cookies.json");
    assert_eq!(cookie_source(&Some("u.json".to_string())), "u.json");
    assert_eq!(credential_path("k"), "data/replay-credentials/k.json");
    assert_eq!(
        frozen_cookie(None, true, "k").as_deref(),
        Some("data/replay-credentials/k.json")
    );
    assert_eq!(frozen_cookie(Some("u".to_string()), false, "k").as_deref(), Some("u"));
    let empty = SubmissionConfig {
        copyright: None,
        copyright_source: Some(" ".to_string()),
        title: None,
    };
    let config = complete_submission_config(empty, "room");
    assert_eq!(config.copyright, Some(2));
    assert_eq!(config.copyright_source.as_deref(), Some("room"));
    assert_eq!(config.title.as_deref(), Some("{streamer} 直播回放 %Y-%m-%d %H-%M"));
    assert!(edits_by_web(Some("WEB")) && !edits_by_web(Some("app")) && !edits_by_web(None));
}

#[test]
fn ids_are_found_in_either_place() {
    let response = |data: Option<&str>| ResponseData {
        data: data.map(str::to_string),
        shown: "shown".to_string(),
    };
    let (aid, bvid) =
        extract_remote_ids(&response(Some(r#"{"archive":{"aid":5,"bvid":"BV5"}}"#))).unwrap();
    assert_eq!((aid, bvid.as_deref()), (5, Some("BV5")));
    assert_eq!(
        extract_remote_ids(&response(None)).unwrap_err(),
        "submit response has no data: shown"
    );
    assert_eq!(
        extract_remote_ids(&response(Some(r#"{"aid":"5"}"#))).unwrap_err(),
        "submit response has no aid: shown"
    );
    assert_eq!(choose_remote_ids(Some(1), Some(2), None, Some("b".to_string()), ""), Ok((1, Some("b".to_string()))));
}

#[test]
fn one_worker_runs_per_session() {
    let mut active = ActiveSessions::new();
    assert!(active.start(4));
    assert!(!active.start(4));
    active.end(4);
    assert!(active.start(4));
}

#[test]
fn interrupted_work_is_taken_up_after_a_restart() {
    let mut stale = session(1);
    stale.expected_parts = 2;
    let mut active = session(2);
    active.last_activity_at = 500;
    let mut submitting = session(3);
    submitting.submit_state = SubmitState::Submitting;
    let mut named = segment(12, 1, 2, SegmentStatus::Uploading);
    named.remote_filename = Some("r".to_string());
    let mut database = ReplayDatabase {
        sessions: vec![stale, active, submitting],
        segments: vec![
            segment(11, 1, 1, SegmentStatus::Uploading),
            named,
            segment(21, 2, 1, SegmentStatus::Uploading),
            segment(31, 3, 1, SegmentStatus::Submitting),
        ],
        jobs: vec![
            job(11, JobStatus::Uploading),
            job(21, JobStatus::Uploading),
            job(31, JobStatus::Uploading),
        ],
    };
    recover_database(&mut database, 100, 200);
    assert_eq!(database.sessions[0].ended_at, Some(200));
    assert_eq!(database.sessions[0].status, SessionStatus::RecordingComplete);
    assert_eq!(database.sessions[1].ended_at, None);
    assert_eq!(database.sessions[2].submit_state, SubmitState::Uncertain);
    assert_eq!(database.sessions[2].status, SessionStatus::SubmissionUncertain);
    assert_eq!(
        database.sessions[2].last_error.as_deref(),
        Some("首个投稿结果不确定，等待绑定AID/BVID")
    );
    assert_eq!(database.segments[0].status, SegmentStatus::Queued);
    assert_eq!(database.segments[0].next_retry_at, None);
    assert_eq!(database.segments[1].status, SegmentStatus::UploadedToStorage);
    assert_eq!(database.segments[2].status, SegmentStatus::Uploading);
    assert_eq!(database.segments[3].status, SegmentStatus::SubmissionUncertain);
    assert_eq!(
        database.segments[3].last_error.as_deref(),
        Some("首个投稿在程序退出时处于提交中；已暂停自动重投")
    );
    assert_eq!((database.jobs[0].status.clone(), database.jobs[0].locked_at), (JobStatus::Queued, None));
    assert_eq!(database.jobs[1].status, JobStatus::Uploading);
    assert_eq!(database.jobs[2].status, JobStatus::SubmissionUncertain);
    assert_eq!(database.jobs[2].last_error.as_deref(), Some("首个投稿结果不确定"));
    let pending: Vec<i64> = pending_sessions(&database).iter().map(|p| p.id).collect();
    assert_eq!(pending, [1, 2, 3]);
}

#[test]
fn a_broken_snapshot_is_never_replaced() {
    assert_eq!(resume_decision(false, Snapshot::Missing, None), ResumeDecision::NoWorker);
    assert_eq!(
        resume_decision(true, Snapshot::Broken, Some(false)),
        ResumeDecision::BrokenSnapshot
    );
    assert_eq!(
        resume_decision(true, Snapshot::Kept { noop: true }, Some(false)),
        ResumeDecision::UploadsNothing
    );
    assert_eq!(
        resume_decision(true, Snapshot::Kept { noop: false }, None),
        ResumeDecision::Resume { with_snapshot: true }
    );
    assert_eq!(resume_decision(true, Snapshot::Missing, None), ResumeDecision::NoConfig);
    assert_eq!(
        resume_decision(true, Snapshot::Missing, Some(true)),
        ResumeDecision::UploadsNothing
    );
    assert_eq!(
        resume_decision(true, Snapshot::Missing, Some(false)),
        ResumeDecision::Resume { with_snapshot: false }
    );
}

#[test]
fn status_words_read_back() {
    assert_eq!(SegmentStatus::parse("queued"), SegmentStatus::Queued);
    assert_ne!(SegmentStatus::parse("x"), SegmentStatus::parse("y"));
    for word in ["recording", "retrying", "recording_complete", "complete", "conflict", "submission_uncertain"] {
        assert_eq!(SessionStatus::parse(word).text(), word);
    }
    for word in ["new", "submitting", "uncertain", "created"] {
        assert_eq!(SubmitState::parse(word).text(), word);
    }
    for word in [
        "queued", "uploading", "retry_wait", "uploaded_to_storage", "submitting",
        "submission_uncertain", "remote_processing", "conflict", "remote_verified",
        "cleanup_pending", "deleted", "retained",
    ] {
        assert_eq!(SegmentStatus::parse(word).text(), word);
    }
    for word in [
        "queued", "uploading", "retry_wait", "submission_uncertain", "conflict",
        "remote_processing", "remote_verified", "complete",
    ] {
        assert_eq!(JobStatus::parse(word).text(), word);
    }
    for word in ["pending", "cleanup_pending", "deleted", "retained"] {
        assert_eq!(CleanupState::parse(word).text(), word);
    }
    assert_eq!(SessionStatus::parse("x"), SessionStatus::Other("x".to_string()));
    assert_eq!(SessionStatus::parse("x").text(), "x");
    assert_eq!(SubmitState::parse("x"), SubmitState::Other("x".to_string()));
    assert_eq!(SubmitState::parse("x").text(), "x");
    assert_eq!(SegmentStatus::parse("x"), SegmentStatus::Other("x".to_string()));
    assert_eq!(SegmentStatus::parse("x").text(), "x");
    assert_eq!(JobStatus::parse("x"), JobStatus::Other("x".to_string()));
    assert_eq!(JobStatus::parse("x").text(), "x");
    assert_eq!(CleanupState::parse("x"), CleanupState::Other("x".to_string()));
    assert_eq!(CleanupState::parse("x").text(), "x");
}
