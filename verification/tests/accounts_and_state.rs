use live_replay::accounts::{
    account_info, after_login_check, auth_status, choose_qr_url, create_qr_challenge,
    login_read_error, LoginStep,
};
use live_replay::clock::IdCounter;
use live_replay::monitor::{
    on_monitor_event, validate_url, MonitorEvent, MonitorNext, MonitorStore,
};
use live_replay::state::{
    backup_path, default_bilibili_tid, temp_path, PersistentState, ReplaySession, SegmentRecord,
    SegmentState, UploadState,
};
use live_replay::upload::{
    account_name_of, append_vid, as_vid, build_live_replay_studio, check_appended,
    create_submission, created_submission, first_submission, make_studio, submit_first_part,
    truncate, validate_bilibili_login, SubmissionMeta, SubmissionRef, Vid,
};

fn segment(id: &str, state: SegmentState) -> SegmentRecord {
    SegmentRecord {
        id: id.to_string(),
        session_id: "s".to_string(),
        streamer_id: "a".to_string(),
        part_index: 1,
        file_path: format!("/{id}.mp4"),
        bytes: 5,
        started_at: 1,
        ended_at: None,
        state,
        remote_confirmed: false,
        remote_part_id: None,
    }
}

fn session(id: &str, streamer: &str, last_live_at: i64) -> ReplaySession {
    ReplaySession {
        id: id.to_string(),
        streamer_id: streamer.to_string(),
        streamer_name: "甲".to_string(),
        platform: "p".to_string(),
        started_at: 1,
        last_live_at,
        ended_at: None,
        next_part_index: 1,
        bilibili_bvid: None,
        bilibili_aid: None,
    }
}

fn meta(title: &str) -> SubmissionMeta {
    SubmissionMeta {
        title: title.to_string(),
        description: "d".to_string(),
        tag: "t".to_string(),
        source: "room".to_string(),
        tid: 171,
        only_self: false,
    }
}

#[test]
fn a_restart_queues_what_is_ready() {
    let mut state = PersistentState::default();
    let mut counter = IdCounter { next: 5 };
    state.segments.push(segment("1", SegmentState::Recording));
    state.segments.push(segment("2", SegmentState::Uploading));
    state.segments.push(segment("3", SegmentState::Uploaded));
    state.enqueue_segment_job_at(&segment("3", SegmentState::Ready), &mut counter, 9, 10);
    state.enqueue_segment_job_at(&segment("4", SegmentState::Ready), &mut counter, 9, 10);
    state.upload_queue[0].state = UploadState::Uploaded;
    state.upload_queue[1].state = UploadState::Uploading;
    state.normalize_after_restart_at(&mut counter, 77, 100);
    assert_eq!(state.segments[0].state, SegmentState::Failed);
    assert_eq!(state.segments[1].state, SegmentState::Ready);
    assert_eq!(state.segments[2].state, SegmentState::Uploaded);
    let queue: Vec<(&str, UploadState, i64)> = state
        .upload_queue
        .iter()
        .map(|j| (j.segment_id.as_str(), j.state, j.next_retry_at))
        .collect();
    assert_eq!(queue, [("4", UploadState::Pending, 100), ("2", UploadState::Pending, 100)]);
    assert_eq!(state.upload_queue[1].id, "upload-77-7");
    let shown = format!("{state:?}");
    state.normalize_after_restart_at(&mut counter, 78, 101);
    assert_eq!(format!("{state:?}"), shown);
    state.normalize_after_restart(&mut counter);
    assert_eq!(state.upload_queue.len(), 2);
}

#[test]
fn a_segment_is_queued_once() {
    let mut state = PersistentState::default();
    let mut counter = IdCounter::new();
    state.settings.auto_upload = true;
    state.bilibili.enabled = true;
    state.enqueue_segment_at(segment("1", SegmentState::Ready), &mut counter, 7, 8);
    state.enqueue_segment_at(segment("1", SegmentState::Ready), &mut counter, 7, 8);
    let mut same_file = segment("2", SegmentState::Ready);
    same_file.file_path = "/1.mp4".to_string();
    state.enqueue_segment_at(same_file, &mut counter, 7, 8);
    let mut confirmed = segment("3", SegmentState::Ready);
    confirmed.remote_confirmed = true;
    state.enqueue_segment_at(confirmed, &mut counter, 7, 8);
    assert_eq!((state.segments.len(), state.upload_queue.len()), (1, 1));
    assert_eq!(state.upload_queue[0].id, "upload-7-0");
    assert_eq!(counter.next, 1);
    state.bilibili.enabled = false;
    state.enqueue_segment(segment("4", SegmentState::Ready), &mut counter);
    assert_eq!((state.segments.len(), state.upload_queue.len()), (2, 1));
    assert_eq!(counter.next, 1);
    state.enqueue_segment_job(&segment("4", SegmentState::Ready), &mut counter);
    state.enqueue_segment_job(&segment("4", SegmentState::Ready), &mut counter);
    assert_eq!(state.upload_queue.len(), 2);
    assert_eq!(counter.next, 2);
    let now = chrono::Utc::now().timestamp();
    assert!((state.upload_queue[1].created_at - now).abs() < 60);
}

#[test]
fn a_session_goes_on_after_a_short_gap() {
    let mut state = PersistentState::default();
    let gap = state.settings.same_session_gap_secs;
    state.sessions.push(session("1", "a", 100));
    state.sessions.push(session("2", "a", 100));
    state.sessions.push(session("3", "b", 100));
    assert_eq!(state.active_session_for_streamer_at("a", 100 + gap), Some(1));
    assert_eq!(state.active_session_for_streamer_at("a", 101 + gap), None);
    state.sessions[1].ended_at = Some(5);
    assert_eq!(state.active_session_for_streamer_at("a", 100), Some(0));
    assert_eq!(state.active_session_for_streamer("a"), None);
    state.sessions[2].last_live_at = chrono::Utc::now().timestamp();
    assert_eq!(state.active_session_for_streamer("b"), Some(2));
    assert_eq!(default_bilibili_tid(), 65);
    assert_eq!(temp_path("/d/s.json"), "/d/s.json.tmp");
    assert_eq!(backup_path("/d/s.json"), "/d/s.json.bak");
}

#[test]
fn long_titles_are_shortened() {
    assert_eq!(truncate("abc", 3), "abc");
    assert_eq!(truncate("abcdef", 5), "ab...");
    assert_eq!(truncate("abcdef", 1), "...");
    let fields = make_studio(&meta(&"长".repeat(81)));
    assert_eq!(fields.title, format!("{}...", "长".repeat(77)));
    assert_eq!((fields.copyright, fields.tid, fields.is_only_self), (2, 171, Some(0)));
    let mut none = meta("t");
    none.tid = 0;
    assert_eq!(submit_first_part(&none).unwrap_err(), "B站投稿分区尚未设置。");
    assert_eq!(submit_first_part(&meta("t")).unwrap().title, "t");
    let studio = build_live_replay_studio("t", "room", "d", true);
    assert_eq!((studio.fields.tid, studio.fields.is_only_self), (171, Some(1)));
    assert_eq!((studio.fields.tag.as_str(), studio.fields.source.as_str()), ("直播回放", "room"));
    assert_eq!(build_live_replay_studio("t", "room", "d", false).fields.is_only_self, None);
}

#[test]
fn submissions_are_named() {
    let reference = |aid, bvid: Option<&str>| SubmissionRef { aid, bvid: bvid.map(str::to_string) };
    assert!(matches!(as_vid(&reference(Some(3), Some("BV"))), Ok(Vid::Aid(3))));
    assert!(matches!(as_vid(&reference(None, Some("BV"))), Ok(Vid::Bvid(b)) if b == "BV"));
    assert_eq!(
        as_vid(&reference(None, None)).unwrap_err(),
        "B站投稿成功响应中没有 aid/bvid；无法安全确认，保留本地文件。"
    );
    assert!(matches!(append_vid(3, Some("BV")), Vid::Bvid(b) if b == "BV"));
    assert!(matches!(append_vid(3, Some("")), Vid::Aid(3)));
    assert!(matches!(append_vid(3, None), Vid::Aid(3)));
    assert!(check_appended(1, 2).is_ok());
    assert_eq!(
        check_appended(2, 2).unwrap_err(),
        "B站接口返回成功，但远端分P数量没有增加；本地文件将保留。"
    );
}

#[test]
fn answers_to_a_submission_are_read() {
    let first = first_submission(Some(r#"{"aid":5,"bvid":"BV5"}"#));
    assert_eq!((first.aid, first.bvid.as_deref()), (Some(5), Some("BV5")));
    assert_eq!(first_submission(None).aid, None);
    assert_eq!(create_submission(Some(r#"{"aid":6}"#)).unwrap().aid, 6);
    assert_eq!(
        create_submission(Some(r#"{"bvid":"x"}"#)).unwrap_err(),
        r#"B站投稿响应缺少 aid，状态不明确: {"bvid":"x"}"#
    );
    assert_eq!(create_submission(None).unwrap_err(), "B站投稿成功响应缺少 data，状态不明确。");
    assert_eq!(created_submission(Some(1), Some("b".to_string()), "").unwrap().bvid.as_deref(), Some("b"));
}

#[test]
fn logins_are_checked() {
    assert_eq!(
        validate_bilibili_login(r#"{"code":0,"data":{"name":"甲"}}"#, "s").unwrap(),
        "甲"
    );
    assert_eq!(validate_bilibili_login(r#"{"code":0}"#, "s").unwrap(), "已登录账号");
    assert_eq!(
        validate_bilibili_login(r#"{"code":-101}"#, "shown").unwrap_err(),
        "B站登录状态无效: shown"
    );
    assert!(account_name_of(None, None, "s").is_err());
    let payload = r#"{"data":{"qrcode_url":"https://q"}}"#.to_string();
    assert_eq!(create_qr_challenge(payload).unwrap().url, "https://q");
    assert_eq!(create_qr_challenge("{}".to_string()).unwrap_err(), "B站二维码响应缺少 URL: {}");
    assert_eq!(
        choose_qr_url(Some("a".to_string()), Some("b".to_string()), "").unwrap(),
        "a"
    );
    let account = account_info(7, r#"{"data":{"name":"甲"}}"#);
    assert_eq!((account.mid, account.name.as_deref()), (7, Some("甲")));
    let status = auth_status(Ok(account));
    assert!(status.logged_in && status.mid == Some(7));
    let failed = auth_status(Err("e".to_string()));
    assert!(!failed.logged_in);
    assert_eq!(failed.last_error.as_deref(), Some("e"));
    assert_eq!(login_read_error(true, "e"), "尚未登录 B站。");
    assert_eq!(login_read_error(false, "e"), "读取 B站登录信息失败: e");
    assert_eq!(after_login_check(true), LoginStep::Renew);
    assert_eq!(after_login_check(false), LoginStep::Save);
}

#[test]
fn a_room_is_watched_once() {
    let mut store = MonitorStore::default();
    let mut counter = IdCounter::new();
    let url = "https://live.bilibili.com/1";
    let added = store.add_target(&mut counter, &format!(" {url} "), Some(" ".to_string())).unwrap();
    assert_eq!((added.url.as_str(), added.name.as_str()), (url, "Live Replay"));
    assert!(added.enabled && added.id.starts_with("monitor-") && added.id.ends_with("-0"));
    assert_eq!(added.last_state, "正在检测");
    assert_eq!(counter.next, 1);
    assert!(store.add_target(&mut counter, url, None).is_err());
    assert!(store.add_target(&mut counter, "https://a.com", None).is_err());
    assert_eq!(counter.next, 1);
    assert_eq!(
        store.add_at("x".to_string(), url, None).unwrap_err(),
        "这个直播间已经在监控列表里。"
    );
    assert_eq!(validate_url("https://a.com").unwrap_err(), "当前录制源只支持 B站和抖音直播间地址。");
    assert_eq!(
        validate_url("live.douyin.com/2").unwrap_err(),
        "请输入完整的 http/https 直播间地址。"
    );
    assert!(validate_url("HTTP://LIVE.DOUYIN.COM/2").is_ok());
    let id = added.id;
    let paused = store.set_enabled(&id, false).unwrap();
    assert_eq!((paused.enabled, paused.last_state.as_str()), (false, "已暂停"));
    assert_eq!(store.enabled_targets().len(), 0);
    store.set_enabled(&id, true).unwrap();
    assert_eq!(store.enabled_targets().len(), 1);
    store.update_target_state_at(&id, "检测失败", Some("e".to_string()), 9);
    assert_eq!(store.targets[0].last_error.as_deref(), Some("e"));
    assert_eq!(store.targets[0].last_checked_at, Some(9));
    store.update_target_state(&id, "等待开播", None);
    let now = chrono::Utc::now().timestamp();
    assert!((store.targets[0].last_checked_at.unwrap() - now).abs() < 60);
    assert_eq!(store.set_enabled("x", true).unwrap_err(), "监控任务不存在。");
    assert_eq!(store.remove_target("x").unwrap_err(), "监控任务不存在。");
    store.remove_target(&id).unwrap();
    assert_eq!(store.targets.len(), 0);
}

#[test]
fn a_watched_room_is_probed_and_recorded() {
    let step = |event| {
        let (note, next) = on_monitor_event(event);
        (note.map(|(state, error)| (state, error)), next)
    };
    let noted = |state: &'static str| Some((state, None));
    assert_eq!(
        step(MonitorEvent::RecordingChecked { recording: true }),
        (noted("正在录制"), MonitorNext::Done)
    );
    assert_eq!(
        step(MonitorEvent::RecordingChecked { recording: false }),
        (noted("正在检测"), MonitorNext::Probe)
    );
    assert_eq!(step(MonitorEvent::Probed(Ok(false))), (noted("等待开播"), MonitorNext::Done));
    assert_eq!(step(MonitorEvent::Probed(Ok(true))), (None, MonitorNext::Start));
    assert_eq!(
        step(MonitorEvent::Probed(Err("e".to_string()))),
        (Some(("检测失败", Some("e".to_string()))), MonitorNext::Done)
    );
    assert_eq!(step(MonitorEvent::Started(Ok(()))), (noted("正在录制"), MonitorNext::Done));
    assert_eq!(
        step(MonitorEvent::Started(Err("e".to_string()))),
        (Some(("启动录制失败", Some("e".to_string()))), MonitorNext::Done)
    );
}
