use live_replay::replay_actions::{
    bind_replay_submission, refuse, reset_replay_submission, retry_replay_job,
    BindSubmissionRequest, ResetSubmissionRequest,
};
use live_replay::replay_domain::{
    active_session, activity_for_streamer, count_pending_parts, streamer_state, user_state,
    RecorderReport, ReplayActivity, ReplayUserState, StreamerRow,
};
use live_replay::replay_recovery::ReplayDatabase;
use live_replay::replay_rows::{JobRow, SegmentRow, SessionRow};
use live_replay::replay_sessions::new_session_row;
use live_replay::replay_views::{
    get_replay_activity, get_replay_jobs, get_replay_sessions, get_submission_activity,
    job_response, part_phase, pending_parts, session_response, submission_part,
    submission_session, summarize_segment, summarize_session, ListedPart, NamedSession,
    SessionNames, SubmissionPartPhase as Phase,
};
use live_replay::statuses::{JobStatus, SegmentStatus, SessionStatus, SubmitState};

fn session(id: i64) -> SessionRow {
    new_session_row(id, 9, "标题".to_string(), None, None, 10)
}

fn segment(id: i64, session_id: i64, part_number: i64, status: SegmentStatus) -> SegmentRow {
    SegmentRow {
        id,
        session_id,
        part_number,
        file_path: format!("/q/{id}.flv"),
        processed_file_path: None,
        danmaku_file_path: None,
        status,
        cleanup_state: None,
        uploaded_filename: None,
        remote_filename: None,
        retry_count: 0,
        next_retry_at: Some(3),
        last_error: Some("segment".to_string()),
        file_size: 5,
        uploaded_at: None,
        verified_at: None,
        deleted_at: None,
    }
}

fn job(segment_id: i64, status: JobStatus) -> JobRow {
    JobRow {
        id: segment_id + 200,
        segment_id,
        status,
        attempts: 1,
        locked_at: Some(1),
        next_attempt_at: None,
        last_error: None,
    }
}

fn names() -> SessionNames {
    SessionNames {
        streamer_name: "甲".to_string(),
        streamer_url: "room".to_string(),
        started_at: "2024".to_string(),
        ended_at: None,
    }
}

fn streamer(enabled: bool) -> StreamerRow {
    StreamerRow { id: 9, name: "甲".to_string(), url: "room".to_string(), enabled }
}

#[test]
fn a_streamer_that_needs_a_hand_is_shown_first() {
    let busy = ReplayActivity { pending_upload_parts: 3, needs_attention: true };
    for enabled in [true, false] {
        for worker in ["Working", "Idle", "Pause"] {
            assert_eq!(user_state(enabled, worker, busy), ReplayUserState::Error);
        }
    }
    let idle = ReplayActivity::default();
    assert_eq!(user_state(false, "Working", idle), ReplayUserState::Waiting);
    assert_eq!(user_state(true, "Working", idle), ReplayUserState::Recording);
}

#[test]
fn the_activity_of_a_streamer_is_summed_up() {
    let sessions = vec![session(1), session(2)];
    let mut segments = vec![
        segment(11, 1, 1, SegmentStatus::Queued),
        segment(12, 1, 2, SegmentStatus::Deleted),
        segment(21, 2, 1, SegmentStatus::RetryWait),
        segment(31, 3, 1, SegmentStatus::Queued),
    ];
    let activity = activity_for_streamer(&sessions, &segments, 9);
    assert_eq!((activity.pending_upload_parts, activity.needs_attention), (2, false));
    assert_eq!(count_pending_parts(&sessions, &segments, 8), 0);
    segments[2].status = SegmentStatus::Conflict;
    assert!(activity_for_streamer(&sessions, &segments, 9).needs_attention);
    assert!(!activity_for_streamer(&sessions, &segments, 8).needs_attention);
}

#[test]
fn the_state_of_a_streamer_is_put_together() {
    let mut ended = session(5);
    ended.ended_at = Some(1);
    let mut sessions = vec![session(4), ended, session(3)];
    assert_eq!(active_session(&sessions, 9), Some(4));
    assert_eq!(active_session(&sessions, 8), None);
    let report = RecorderReport {
        recording: true,
        elapsed_seconds: Some(60),
        local_bytes: Some(1_000),
    };
    let state = streamer_state(streamer(true), &sessions, &vec![], Some(report), Some("2024".to_string()));
    assert_eq!(state.user_state, ReplayUserState::Recording);
    assert_eq!(state.active_session_id, Some(4));
    assert_eq!(state.active_session_started_at.as_deref(), Some("2024"));
    assert_eq!((state.recording_elapsed_seconds, state.recording_bytes), (Some(60), Some(1_000)));
    let quiet = RecorderReport { recording: false, ..report };
    let state = streamer_state(streamer(true), &sessions, &vec![], Some(quiet), None);
    assert_eq!((state.recording_elapsed_seconds, state.recording_bytes), (None, None));
    sessions[0].submit_state = SubmitState::Uncertain;
    let state = streamer_state(streamer(true), &sessions, &vec![], None, None);
    assert_eq!(state.user_state, ReplayUserState::Error);
}

#[test]
fn a_retry_clears_the_wait_but_not_the_doubt() {
    let mut database = ReplayDatabase {
        sessions: vec![session(1)],
        segments: vec![segment(11, 1, 1, SegmentStatus::Conflict)],
        jobs: vec![job(11, JobStatus::Conflict)],
    };
    database.sessions[0].status = SessionStatus::Conflict;
    assert_eq!(retry_replay_job(&mut database, 211).unwrap(), 1);
    assert_eq!(database.segments[0].status, SegmentStatus::Queued);
    assert_eq!(database.segments[0].next_retry_at, None);
    assert_eq!(database.jobs[0].status, JobStatus::Queued);
    assert_eq!(database.jobs[0].locked_at, None);
    assert_eq!(database.sessions[0].status, SessionStatus::Recording);

    database.segments[0].status = SegmentStatus::SubmissionUncertain;
    database.segments[0].last_error = Some("doubt".to_string());
    database.jobs[0].status = JobStatus::SubmissionUncertain;
    retry_replay_job(&mut database, 211).unwrap();
    assert_eq!(database.segments[0].status, SegmentStatus::SubmissionUncertain);
    assert_eq!(database.segments[0].last_error.as_deref(), Some("doubt"));
    assert_eq!(database.jobs[0].status, JobStatus::SubmissionUncertain);
    let refusal = retry_replay_job(&mut database, 5).unwrap_err();
    assert_eq!((refusal.status, refusal.message.as_str()), (404, "Replay job not found"));
}

#[test]
fn a_submission_found_by_hand_is_bound() {
    let mut database = ReplayDatabase {
        sessions: vec![session(1)],
        segments: vec![
            segment(11, 1, 1, SegmentStatus::SubmissionUncertain),
            segment(12, 1, 2, SegmentStatus::RetryWait),
        ],
        jobs: vec![job(11, JobStatus::SubmissionUncertain), job(12, JobStatus::RetryWait)],
    };
    let found = BindSubmissionRequest { aid: 7, bvid: Some("BV7".to_string()) };
    bind_replay_submission(&mut database, 1, found).unwrap();
    assert_eq!(database.sessions[0].aid, Some(7));
    assert_eq!(database.sessions[0].submit_state, SubmitState::Created);
    assert_eq!(database.sessions[0].status, SessionStatus::RecordingComplete);
    assert_eq!(database.segments[0].status, SegmentStatus::Queued);
    assert_eq!(database.segments[1].status, SegmentStatus::RetryWait);
    assert_eq!(database.jobs[0].status, JobStatus::Queued);
    assert_eq!(database.jobs[1].status, JobStatus::RetryWait);
    let missing = BindSubmissionRequest { aid: 7, bvid: None };
    let refusal = bind_replay_submission(&mut database, 2, missing).unwrap_err();
    assert_eq!((refusal.status, refusal.message.as_str()), (404, "Replay session not found"));
}

#[test]
fn a_submission_is_reset_only_when_confirmed() {
    let mut database = ReplayDatabase {
        sessions: vec![session(1)],
        segments: vec![segment(11, 1, 1, SegmentStatus::SubmissionUncertain)],
        jobs: vec![job(11, JobStatus::SubmissionUncertain)],
    };
    database.sessions[0].aid = Some(7);
    database.sessions[0].submit_state = SubmitState::Uncertain;
    let no = ResetSubmissionRequest { confirm_no_remote_submission: false };
    let refusal = reset_replay_submission(&mut database, 1, no).unwrap_err();
    assert_eq!((refusal.status, refusal.message.as_str()), (400, "必须确认B站端不存在该稿件"));
    assert_eq!(database.sessions[0].aid, Some(7));
    let yes = ResetSubmissionRequest { confirm_no_remote_submission: true };
    reset_replay_submission(&mut database, 1, yes).unwrap();
    assert_eq!(database.sessions[0].aid, None);
    assert_eq!(database.sessions[0].submit_state, SubmitState::New);
    assert_eq!(database.segments[0].status, SegmentStatus::Queued);
    assert_eq!(database.jobs[0].status, JobStatus::Queued);
    assert!(reset_replay_submission(&mut database, 99, yes).is_ok());
    assert_eq!(refuse(409, "m").message, "m");
}

#[test]
fn sessions_are_listed_newest_first() {
    let segments = vec![segment(11, 1, 1, SegmentStatus::Queued), segment(12, 1, 2, SegmentStatus::Retained)];
    let listed = (1..=201)
        .map(|id| session_response(session(id), names(), pending_parts(&segments, id)))
        .collect();
    let shown = get_replay_sessions(listed);
    assert_eq!(shown.len(), 200);
    assert_eq!((shown[0].id, shown[199].id), (201, 2));
    assert_eq!(pending_parts(&segments, 1), 1);
    assert_eq!(shown[0].streamer_name, "甲");
}

#[test]
fn jobs_are_listed_open_ones_first() {
    let row = |id: i64, session_id: i64, part: i64, status| {
        job_response(
            job(id, status),
            segment(id, session_id, part, SegmentStatus::Queued),
            "甲".to_string(),
            None,
            None,
        )
    };
    let shown = get_replay_jobs(vec![
        row(1, 5, 1, JobStatus::Complete),
        row(2, 1, 2, JobStatus::Queued),
        row(3, 1, 1, JobStatus::RetryWait),
        row(4, 2, 1, JobStatus::Conflict),
        row(5, 3, 1, JobStatus::RemoteProcessing),
    ]);
    let order: Vec<i64> = shown.iter().map(|j| j.segment_id).collect();
    assert_eq!(order, [4, 3, 2, 1, 5]);
    assert_eq!(shown[0].last_error.as_deref(), Some("segment"));
    assert_eq!(shown[0].next_attempt_at, Some(3));
    let shown = get_replay_jobs(vec![
        row(1, 1, 1, JobStatus::parse("paused")),
        row(2, 2, 1, JobStatus::Complete),
        row(3, 1, 2, JobStatus::SubmissionUncertain),
        row(4, 1, 3, JobStatus::RemoteVerified),
    ]);
    let order: Vec<i64> = shown.iter().map(|j| j.segment_id).collect();
    assert_eq!(order, [3, 4, 2, 1]);
}

#[test]
fn sessions_and_parts_are_summed_up_in_four_states() {
    let segments = vec![segment(11, 1, 1, SegmentStatus::Conflict), segment(21, 2, 1, SegmentStatus::Queued)];
    let mut uncertain = session(1);
    uncertain.submit_state = SubmitState::Uncertain;
    let first = summarize_session(uncertain, &segments, names());
    assert_eq!(first.user_state, ReplayUserState::Error);
    assert!(first.requires_submission_reconciliation);
    let second = summarize_session(session(2), &segments, names());
    assert_eq!(second.user_state, ReplayUserState::Recording);
    assert_eq!(second.pending_parts, 1);
    let mut done = session(3);
    done.status = SessionStatus::Complete;
    let third = summarize_session(done, &segments, names());
    assert!(third.completed);
    assert_eq!(third.user_state, ReplayUserState::Waiting);
    let mut over = session(4);
    over.status = SessionStatus::RecordingComplete;
    assert_eq!(summarize_session(over, &segments, names()).user_state, ReplayUserState::Uploading);

    let part = |segment_status, job_status| {
        summarize_segment(job(1, job_status), segment(1, 1, 1, segment_status), "甲".to_string())
    };
    let doubt = part(SegmentStatus::SubmissionUncertain, JobStatus::Queued);
    assert_eq!((doubt.user_state, doubt.can_retry), (ReplayUserState::Error, false));
    let clash = part(SegmentStatus::Conflict, JobStatus::Conflict);
    assert_eq!((clash.user_state, clash.can_retry), (ReplayUserState::Error, true));
    let complete = part(SegmentStatus::Deleted, JobStatus::Complete);
    assert_eq!((complete.user_state, complete.can_retry), (ReplayUserState::Waiting, false));
    let open = part(SegmentStatus::Queued, JobStatus::Queued);
    assert_eq!((open.user_state, open.can_retry), (ReplayUserState::Uploading, true));
    let all = get_replay_activity(vec![third, first, second], vec![complete, open]);
    let order: Vec<i64> = all.sessions.iter().map(|s| s.id).collect();
    assert_eq!(order, [3, 2, 1]);
    assert!(!all.segments[0].completed && all.segments[1].completed);
}

#[test]
fn parts_of_a_submission_have_phases() {
    use_phase(SegmentStatus::Queued, JobStatus::Queued, None, Phase::Waiting);
    use_phase(SegmentStatus::Conflict, JobStatus::Queued, None, Phase::Error);
    use_phase(SegmentStatus::Queued, JobStatus::SubmissionUncertain, None, Phase::Error);
    use_phase(SegmentStatus::RetryWait, JobStatus::Queued, Some("e"), Phase::Error);
    use_phase(SegmentStatus::RetryWait, JobStatus::Queued, Some(" "), Phase::Waiting);
    use_phase(SegmentStatus::RemoteVerified, JobStatus::RemoteVerified, None, Phase::Completed);
    use_phase(SegmentStatus::Queued, JobStatus::Complete, None, Phase::Completed);
    use_phase(SegmentStatus::UploadedToStorage, JobStatus::Queued, None, Phase::Uploading);
    use_phase(SegmentStatus::Queued, JobStatus::RemoteProcessing, None, Phase::Uploading);
    use_phase(SegmentStatus::parse("new"), JobStatus::parse("paused"), Some("e"), Phase::Waiting);
}

fn use_phase(s: SegmentStatus, j: JobStatus, error: Option<&str>, expected: Phase) {
    assert_eq!(part_phase(&s, &j, error), expected);
}

#[test]
fn only_a_failed_part_can_be_retried() {
    let retry = submission_part(segment(1, 1, 1, SegmentStatus::RetryWait), Some(job(1, JobStatus::RetryWait)));
    assert!(retry.part.can_retry);
    assert_eq!(retry.part.job_id, Some(201));
    let doubt = submission_part(segment(1, 1, 1, SegmentStatus::SubmissionUncertain), None);
    assert!(!doubt.part.can_retry);
    assert_eq!(doubt.part.phase, Phase::Error);
    let queued = submission_part(segment(1, 1, 1, SegmentStatus::Queued), None);
    assert_eq!((queued.part.job_id, queued.part.phase), (None, Phase::Waiting));
}

#[test]
fn a_submission_lists_its_parts_and_the_one_being_recorded() {
    let listed: Vec<ListedPart> = vec![
        submission_part(segment(2, 1, 2, SegmentStatus::Queued), None),
        submission_part(segment(1, 1, 1, SegmentStatus::Queued), None),
        submission_part(segment(3, 2, 1, SegmentStatus::Queued), None),
    ];
    let mut row = session(1);
    row.expected_parts = 2;
    let shown = submission_session(row, "甲".to_string(), &listed);
    let numbers: Vec<i64> = shown.parts.iter().map(|p| p.part_number).collect();
    assert_eq!(numbers, [1, 2, 3]);
    assert_eq!(shown.parts[2].phase, Phase::Recording);
    let mut ended = session(2);
    ended.ended_at = Some(5);
    ended.status = SessionStatus::SubmissionUncertain;
    let activity = get_submission_activity(
        vec![
            NamedSession { session: session(1), streamer_name: "甲".to_string() },
            NamedSession { session: ended, streamer_name: "乙".to_string() },
        ],
        &listed,
    );
    assert_eq!(activity.sessions[0].id, 2);
    assert_eq!(activity.sessions[0].parts.len(), 1);
    assert!(activity.sessions[0].requires_submission_reconciliation);
}
