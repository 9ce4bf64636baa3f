use live_replay::settings::{
    detect_streamer, detect_url, format_segment_time, load_replay_streamer_settings,
    minutes_of_segment_time, normalize_tags, segment_minutes_from_override,
    set_replay_streamer_enabled, set_replay_streamer_enabled_safe, store_settings,
    unsupported_room, update_replay_streamer_settings, update_replay_streamer_settings_safe,
    validate_settings, worker_not_rebuilt, DetectStreamerRequest, ReplayStreamerEnabledRequest,
    RoomStatus, StoredSettings, SwitchAction, UpdateReplayStreamerSettingsRequest,
};
use live_replay::workers::WorkerStatus;

fn request() -> UpdateReplayStreamerSettingsRequest {
    UpdateReplayStreamerSettingsRequest {
        name: " 甲 ".to_string(),
        user_cookie: "u.json".to_string(),
        title: " 标题 ".to_string(),
        tid: 171,
        tags: vec![" 游戏 ".to_string(), "游戏".to_string(), "".to_string(), "直播".to_string()],
        copyright: 2,
        copyright_source: " ".to_string(),
        description: " d ".to_string(),
        is_only_self: 1,
        segment_minutes: 90,
        delete_after_success: false,
    }
}

fn stored() -> StoredSettings {
    StoredSettings {
        id: 3,
        url: "room".to_string(),
        name: "old".to_string(),
        enabled: true,
        upload_id: Some(5),
        override_json: Some(r#"{"keep":"me","segment_time":"00:10:00"}"#.to_string()),
        user_cookie: None,
        title: None,
        tid: Some(70_000),
        tags: Some("broken".to_string()),
        copyright: Some(-1),
        copyright_source: None,
        description: None,
        is_only_self: None,
        extra_fields: None,
    }
}

#[test]
fn settings_are_validated() {
    assert!(validate_settings(&request()).is_ok());
    let refused = |change: fn(&mut UpdateReplayStreamerSettingsRequest)| {
        let mut payload = request();
        change(&mut payload);
        let refusal = validate_settings(&payload).unwrap_err();
        assert_eq!(refusal.status, 400);
        refusal.message
    };
    assert_eq!(refused(|p| p.name = " ".to_string()), "主播名称和投稿账号不能为空");
    assert_eq!(refused(|p| p.user_cookie.clear()), "主播名称和投稿账号不能为空");
    assert_eq!(refused(|p| p.title.clear()), "视频标题不能为空");
    assert_eq!(refused(|p| p.tid = 0), "请选择有效的B站分区");
    assert_eq!(refused(|p| p.copyright = 3), "投稿类型只能是自制或转载");
    assert_eq!(refused(|p| p.is_only_self = 2), "可见范围参数无效");
    assert_eq!(refused(|p| p.segment_minutes = 0), "单段时长必须在1到1440分钟之间");
    assert_eq!(refused(|p| p.segment_minutes = 1441), "单段时长必须在1到1440分钟之间");
}

#[test]
fn segment_times_read_back() {
    for minutes in [1, 59, 60, 61, 599, 1440] {
        assert_eq!(minutes_of_segment_time(&format_segment_time(minutes)), minutes);
    }
    assert_eq!(format_segment_time(90), "01:30:00");
    assert_eq!(format_segment_time(0), "00:01:00");
    assert_eq!(format_segment_time(9_999), "24:00:00");
    assert_eq!(minutes_of_segment_time("00:00:01"), 1);
    assert_eq!(minutes_of_segment_time("99999999999999999:00:00"), 1440);
    for text in ["", "1", "1:2", "1:60:0", "1:0:60", "1:2:3:4", "a:0:0"] {
        assert_eq!(minutes_of_segment_time(text), 60, "{text}");
    }
    assert_eq!(segment_minutes_from_override(None), 60);
    assert_eq!(segment_minutes_from_override(Some(r#"{"segment_time":"02:00:30"}"#)), 121);
    assert_eq!(segment_minutes_from_override(Some(r#"{"segment_time":5}"#)), 60);
    assert_eq!(segment_minutes_from_override(Some("02:00:00")), 60);
}

#[test]
fn tags_are_trimmed_and_neighbours_merged() {
    assert_eq!(normalize_tags(&request().tags), ["游戏", "直播"]);
    assert_eq!(normalize_tags(&vec![" ".to_string()]), ["游戏"]);
    let apart = vec!["a".to_string(), "b".to_string(), "a".to_string()];
    assert_eq!(normalize_tags(&apart), ["a", "b", "a"]);
}

#[test]
fn missing_settings_have_defaults() {
    let shown = load_replay_streamer_settings(&stored());
    assert_eq!(shown.title, "{streamer} 直播回放 %Y-%m-%d %H-%M");
    assert_eq!((shown.tid, shown.copyright, shown.is_only_self), (0, 2, 1));
    assert_eq!(shown.tags.len(), 0);
    assert_eq!(shown.segment_minutes, 10);
    assert!(shown.delete_after_success);
    assert_eq!(shown.user_cookie, "");
}

#[test]
fn saved_settings_read_back() {
    let mut row = stored();
    let update =
        update_replay_streamer_settings(&request(), Some(&row), Some(WorkerStatus::Idle)).unwrap();
    assert_eq!(update.upload_id, 5);
    assert_eq!(update.copyright_source, "room");
    assert_eq!(update.tags, r#"["游戏","直播"]"#);
    assert!(update.restart_worker);
    assert!(update.override_json.contains(r#""keep":"me""#));
    store_settings(&mut row, update);
    let shown = load_replay_streamer_settings(&row);
    assert_eq!((shown.name.as_str(), shown.title.as_str()), ("甲", "标题"));
    assert_eq!((shown.tid, shown.copyright, shown.is_only_self), (171, 2, 1));
    assert_eq!(shown.tags, ["游戏", "直播"]);
    assert_eq!(shown.segment_minutes, 90);
    assert!(!shown.delete_after_success);
    assert_eq!(shown.description, "d");
}

#[test]
fn settings_of_a_busy_streamer_are_not_changed() {
    let row = stored();
    let refusal = |worker| {
        let refusal =
            update_replay_streamer_settings_safe(&request(), Some(&row), Some(worker)).unwrap_err();
        assert_eq!(refusal.status, 409);
        refusal.message
    };
    assert_eq!(refusal(WorkerStatus::Working(1)), "主播正在录制，请在本场直播结束后修改设置");
    assert_eq!(refusal(WorkerStatus::Pending), "正在检查主播是否开播，请稍后再保存一次设置");
    assert!(update_replay_streamer_settings_safe(&request(), Some(&row), Some(WorkerStatus::Pause)).is_ok());
    let busy =
        update_replay_streamer_settings(&request(), Some(&row), Some(WorkerStatus::Working(1)));
    assert_eq!(busy.unwrap_err().message, "主播正在录制，请在本场直播结束后修改设置");
    let missing = update_replay_streamer_settings(&request(), None, None).unwrap_err();
    assert_eq!((missing.status, missing.message.as_str()), (404, "主播不存在"));
    let mut old = stored();
    old.upload_id = None;
    let refused = update_replay_streamer_settings(&request(), Some(&old), None).unwrap_err();
    assert_eq!(
        (refused.status, refused.message.as_str()),
        (409, "这个旧主播没有关联投稿设置，请删除后重新添加")
    );
    let mut own = request();
    own.copyright = 1;
    own.copyright_source = "x".to_string();
    let update = update_replay_streamer_settings(&own, Some(&row), None).unwrap();
    assert_eq!(update.copyright_source, "");
}

#[test]
fn the_switch_is_set_not_toggled() {
    let on = ReplayStreamerEnabledRequest { enabled: true };
    let off = ReplayStreamerEnabledRequest { enabled: false };
    let set = |current, payload, worker| {
        set_replay_streamer_enabled(current, payload, worker).map_err(|r| (r.status, r.message))
    };
    assert_eq!(set(Some(true), on, true), Ok(SwitchAction::Unchanged));
    assert_eq!(set(Some(false), on, true), Ok(SwitchAction::WakeWorker));
    assert_eq!(set(Some(false), on, false), Ok(SwitchAction::AddWorker));
    assert_eq!(set(Some(true), off, true), Ok(SwitchAction::PauseWorker));
    assert_eq!(set(Some(true), off, false), Ok(SwitchAction::StoreOnly));
    assert_eq!(set(None, on, false), Err((404, "主播不存在".to_string())));
    let pending =
        set_replay_streamer_enabled_safe(Some(true), off, Some(WorkerStatus::Pending)).unwrap_err();
    assert_eq!(
        (pending.status, pending.message.as_str()),
        (409, "正在检查主播是否开播，请稍后再切换自动录制")
    );
    assert!(set_replay_streamer_enabled_safe(Some(true), off, Some(WorkerStatus::Working(1))).is_ok());
}

#[test]
fn a_streamer_is_recognised_while_live() {
    let url = |url: &str| detect_url(&DetectStreamerRequest { url: url.to_string() });
    assert_eq!(url(" room ").unwrap(), "room");
    assert_eq!(url(" ").unwrap_err().message, "请填写直播间链接");
    let live = |name: &str| detect_streamer(&RoomStatus::Live { name: name.to_string() });
    assert_eq!(live(" 甲 ").unwrap().name, "甲");
    let nameless = live(" ").unwrap_err();
    assert_eq!((nameless.status, nameless.message.as_str()), (422, "未识别到主播名称，请手动填写"));
    let offline = detect_streamer(&RoomStatus::Offline).unwrap_err();
    assert_eq!(
        (offline.status, offline.message.as_str()),
        (422, "直播间当前未开播，无法自动识别主播名称，请手动填写")
    );
    let failed = detect_streamer(&RoomStatus::Failed { error: "e".to_string() }).unwrap_err();
    assert_eq!((failed.status, failed.message.as_str()), (502, "主播名称识别失败：e"));
    assert_eq!(unsupported_room().message, "不支持这个直播间链接");
    assert_eq!(worker_not_rebuilt().message, "设置已保存，但重新建立直播监控失败，请检查直播间链接");
}

#[test]
fn other_members_of_stored_json_are_kept() {
    let mut row = stored();
    row.override_json = Some(r#"{"segment_time":"00:10:00","n":1.5,"o":{"x":[1,-2]}}"#.to_string());
    row.extra_fields = Some("[1]".to_string());
    let update =
        update_replay_streamer_settings(&request(), Some(&row), Some(WorkerStatus::Idle)).unwrap();
    assert_eq!(update.override_json, r#"{"n":1.5,"o":{"x":[1,-2]},"segment_time":"01:30:00"}"#);
    assert_eq!(update.extra_fields, r#"{"live_replay_delete_after_success":false}"#);
}
