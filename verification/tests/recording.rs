use std::collections::HashMap;

use live_replay::clock::{local_time, IdCounter, LocalTime};
use live_replay::journal::{plan_for, PreparedRecordingSession};
use live_replay::recording::{
    after_direct_read, connection_kind, direct_result, minimum_segment_size, new_session_id,
    new_stop_flag, normalized_extension, plan_direct, probe_name, request_stop, session_times,
    session_times_from, working_pattern,
    ConnectionKind, CoreCredentials, DirectAction, DirectPlan, LiveSession, MeasuredSegment,
    ProbeResult, RecordingPlan, ResolvedStream, SegmentEmitterState, SegmentPlan, SessionAction,
    StreamRead,
};
use live_replay::recordings::{
    background_failed, check_remux_output, check_start_space, closing_outcome, format_gib,
    handoff_outcome, on_start_event, plan_mp4, shown_error, stream_to_record, verify_nonempty_file,
    Admission, ClosingStep, FileFacts, HandoffOutcome, HandoffStep, Mp4Plan, MultiRecordingRuntime,
    StartDecision, StartEvent,
};

fn at(timestamp: i64, hour: &str, minute: &str) -> LocalTime {
    LocalTime {
        timestamp,
        date: "2024-05-06".to_string(),
        hour: hour.to_string(),
        minute: minute.to_string(),
        second: "07".to_string(),
        stamp: "20240506200000000".to_string(),
    }
}

fn stream(name: &str, suffix: &str) -> ResolvedStream {
    ResolvedStream {
        name: name.to_string(),
        title: "标题".to_string(),
        platform: "bilibili".to_string(),
        room_url: "https://live.bilibili.com/1".to_string(),
        stream_url: "https://cdn/1.flv".to_string(),
        suffix: suffix.to_string(),
        headers: HashMap::new(),
    }
}

fn emitter() -> SegmentEmitterState {
    SegmentEmitterState {
        live_session_id: "s1".to_string(),
        streamer_name: "主播/甲".to_string(),
        platform: "bilibili".to_string(),
        room_url: "room".to_string(),
        output_dir: "/rec".to_string(),
        next_index: 1,
        segment_started: at(100, "20", "00"),
        segments: Vec::new(),
        errors: Vec::new(),
    }
}

fn kept(measured: MeasuredSegment) -> SegmentPlan {
    match measured {
        MeasuredSegment::Keep(plan) => plan,
        _ => panic!("the file was not kept"),
    }
}

fn session() -> LiveSession {
    let plan = RecordingPlan::new(
        "room".to_string(),
        "显示名".to_string(),
        CoreCredentials::default(),
        "/rec".to_string(),
    );
    LiveSession::start(plan, at(50, "19", "59"), at(100, "20", "00"), "fresh".to_string())
}

#[test]
fn a_measured_part_gets_its_names() {
    let mut state = emitter();
    let plan = kept(state.measure_raw_segment("/rec/raw.flv", "flv", Ok(14), &at(200, "21", "05")));
    assert_eq!(plan.index, 1);
    assert_eq!(plan.source_path, "/rec/.lr-s1-P1-source.flv");
    assert_eq!(plan.file_name, "主播_甲｜2024-05-06｜20：00-21：05.mp4");
    assert_eq!(plan.numbered_file_name, "主播_甲｜2024-05-06｜20：00-21：05｜P1.mp4");
    assert_eq!(plan.youtube_title, "主播_甲｜2024-05-06｜20:00-21:05");
    assert_eq!(state.next_index, 2);
}

#[test]
fn a_header_alone_is_no_part() {
    assert_eq!(minimum_segment_size("flv"), 14);
    assert_eq!(minimum_segment_size("ts"), 1);
    let mut state = emitter();
    let end = at(200, "21", "05");
    assert!(matches!(
        state.measure_raw_segment("/rec/raw.flv", "flv", Ok(13), &end),
        MeasuredSegment::Discard
    ));
    assert!(matches!(
        state.measure_raw_segment("/rec/raw.ts", "ts", Ok(0), &end),
        MeasuredSegment::Discard
    ));
    assert_eq!(state.next_index, 1);
    assert!(matches!(
        state.measure_raw_segment("/rec/raw.flv", "flv", Err("gone".to_string()), &end),
        MeasuredSegment::Unreadable
    ));
    assert_eq!(state.errors, ["读取切段文件失败 /rec/raw.flv: gone"]);
}

#[test]
fn a_part_never_takes_the_place_of_a_file() {
    let mut state = emitter();
    let end = at(200, "21", "05");
    let plan = kept(state.measure_raw_segment("/rec/raw.flv", "flv", Ok(20), &end));
    assert_eq!(state.place_segment(&plan, true, false, false), None);
    assert_eq!(state.place_segment(&plan, false, true, true), None);
    assert_eq!(
        state.errors,
        [
            "发现同 session/P 的恢复源文件，拒绝覆盖: /rec/.lr-s1-P1-source.flv",
            "最终 MP4 文件名冲突，拒绝覆盖: /rec/主播_甲｜2024-05-06｜20：00-21：05｜P1.mp4",
        ]
    );
    assert_eq!(state.place_segment(&plan, false, false, true).as_deref(), Some(plan.file_name.as_str()));
    assert_eq!(
        state.place_segment(&plan, false, true, false).as_deref(),
        Some(plan.numbered_file_name.as_str())
    );
}

#[test]
fn parts_follow_each_other_without_a_gap() {
    let mut state = emitter();
    for (end, bytes) in [(200, Some(25)), (300, None)] {
        let plan = kept(state.measure_raw_segment("raw", "ts", Ok(20), &at(end, "21", "05")));
        let name = state.place_segment(&plan, false, false, false).unwrap();
        assert!(state.commit_segment("raw", plan, name, Ok(bytes)).is_some());
    }
    assert_eq!(state.segments[0].segment_index, 1);
    assert_eq!(state.segments[1].segment_index, 2);
    assert_eq!(state.segments[0].started_at, 100);
    assert_eq!(state.segments[0].ended_at, state.segments[1].started_at);
    assert_eq!(state.segments[0].bytes_written, 25);
    assert_eq!(state.segments[1].bytes_written, 20);
    assert_eq!(state.segment_started.timestamp, 300);
    let plan = kept(state.measure_raw_segment("raw", "ts", Ok(20), &at(400, "21", "05")));
    let target = plan.source_path.clone();
    assert!(state
        .commit_segment("raw", plan, "x.mp4".to_string(), Err("busy".to_string()))
        .is_none());
    assert_eq!(state.errors, [format!("提交切段文件失败 raw -> {target}: busy")]);
    assert_eq!(state.segments.len(), 2);
}

#[test]
fn a_session_waits_out_the_grace_period() {
    let mut live = session();
    assert_eq!(live.on_stop_check(false), SessionAction::Probe);
    assert_eq!(live.on_stop_check(true), SessionAction::Finish);
    let offline = Ok(ProbeResult::Offline);
    assert_eq!(live.on_probe(&offline, 1_000), SessionAction::Wait(20));
    assert_eq!(live.on_probe(&Err("timeout".to_string()), 600_999), SessionAction::Wait(20));
    assert_eq!(live.last_error.as_deref(), Some("timeout"));
    assert_eq!(live.on_probe(&offline, 601_000), SessionAction::Finish);
}

#[test]
fn a_live_room_is_recorded_and_forgets_failures() {
    let mut live = session();
    live.on_probe(&Err("timeout".to_string()), 1_000);
    let found = Ok(ProbeResult::Live { stream: stream("  ", "flv") });
    assert_eq!(live.on_probe(&found, 5_000), SessionAction::Record);
    assert_eq!(live.offline_since, None);
    assert_eq!(live.last_error, None);
    assert_eq!(live.emitter.as_ref().unwrap().streamer_name, "显示名");
    assert_eq!(live.emitter.as_ref().unwrap().next_index, 1);
    assert_eq!(
        live.on_connection_end(Err("reset".to_string()), 9_000, false),
        SessionAction::Wait(2)
    );
    assert_eq!(live.offline_since, Some(9_000));
    assert_eq!(live.on_connection_end(Ok(()), 10_000, true), SessionAction::Finish);
    assert_eq!(live.offline_since, Some(9_000));
    assert_eq!(live.last_error.as_deref(), Some("reset"));
}

#[test]
fn a_finished_session_reports_its_parts() {
    let mut live = session();
    live.on_probe(&Ok(ProbeResult::Live { stream: stream("甲", "flv") }), 1);
    live.on_connection_end(Err("reset".to_string()), 2, false);
    let result = live.finish(500, true);
    assert_eq!(result.live_session_id, "fresh");
    assert_eq!(result.streamer_name, "显示名");
    assert_eq!((result.started_at, result.ended_at), (50, 500));
    assert!(result.stopped_by_user);
    assert_eq!(result.last_error.as_deref(), Some("reset"));

    let mut noted = session();
    noted.on_probe(&Ok(ProbeResult::Live { stream: stream("甲", "flv") }), 1);
    let state = noted.emitter.as_mut().unwrap();
    state.errors.push("a".to_string());
    state.errors.push("b".to_string());
    noted.on_connection_end(Err("reset".to_string()), 2, false);
    assert_eq!(noted.finish(500, false).last_error.as_deref(), Some("a; b"));
}

#[test]
fn a_plan_takes_over_a_prepared_session() {
    let prepared = PreparedRecordingSession {
        live_session_id: "old".to_string(),
        session_started_at: 10,
        next_segment_index: 4,
        current_segment_started_at: 70,
        stale_session: None,
    };
    let plan = plan_for(
        prepared,
        "room".to_string(),
        "甲".to_string(),
        CoreCredentials::default(),
        "/rec".to_string(),
    );
    assert_eq!(plan.live_session_id.as_deref(), Some("old"));
    assert_eq!(plan.session_started_at, Some(10));
    assert_eq!(plan.next_segment_index, 4);
    assert_eq!(plan.segment_started_at, Some(70));
    assert_eq!(plan.segment_target_bytes, 14_900_000_000);
    let empty = RecordingPlan { segment_target_bytes: 0, ..plan };
    let live = LiveSession::start(empty, at(1, "00", "00"), at(2, "00", "00"), "x".to_string());
    assert_eq!(live.live_session_id, "old");
    assert_eq!(live.plan.segment_target_bytes, 14_900_000_000);
}

#[test]
fn containers_decide_how_a_stream_is_recorded() {
    assert_eq!(connection_kind("m3u8"), Ok(ConnectionKind::Hls));
    assert_eq!(connection_kind("ts"), Ok(ConnectionKind::Hls));
    assert_eq!(connection_kind("flv"), Ok(ConnectionKind::Flv));
    assert_eq!(
        connection_kind("mp4"),
        Err("15GB 安全切段当前仅支持 FLV/HLS/TS，直播源返回了 mp4。".to_string())
    );
    assert_eq!(normalized_extension(&stream("甲", " ..FLV "), None), "flv");
    assert_eq!(normalized_extension(&stream("甲", "xs"), Some("ts".to_string())), "ts");
    assert_eq!(normalized_extension(&stream("甲", ""), None), "flv");
    assert_eq!(probe_name("  "), "Live Replay");
    assert_eq!(probe_name(" 甲 "), "甲");
    assert_eq!(working_pattern("/rec", "s1"), "/rec/.lr-s1-raw-%Y%m%d-%H%M%S-%f");
    assert_eq!(new_session_id("a:b", &at(0, "00", "00"), 3), "a_b-20240506200000000-3");
}

#[test]
fn a_direct_recording_is_planned_and_closed() {
    let now = at(0, "20", "00");
    let plan = plan_direct(&stream("", "flv"), "flv", "/rec", &now).unwrap();
    assert_eq!(plan.final_path, "/rec/bilibili_2024-05-06_20-00-07.flv");
    assert_eq!(plan.part_path, "/rec/bilibili_2024-05-06_20-00-07.flv.part");
    assert_eq!(
        plan_direct(&stream("甲", ""), "m3u8", "/rec", &now).unwrap_err(),
        "当前 Android 内核第一阶段暂不直接写入 HLS/m3u8；请使用 FLV/直链直播源。"
    );

    let mut stop = new_stop_flag();
    let mut written = 5;
    assert!(matches!(
        after_direct_read(&mut written, &stop, StreamRead::Chunk(10)),
        DirectAction::Write
    ));
    assert_eq!(written, 15);
    match after_direct_read(&mut written, &stop, StreamRead::Failed("eof".to_string())) {
        DirectAction::Fail(message) => assert_eq!(message, "读取直播流失败: eof"),
        other => panic!("{other:?}"),
    }
    assert!(matches!(after_direct_read(&mut written, &stop, StreamRead::End), DirectAction::Close));
    request_stop(&mut stop);
    assert!(matches!(
        after_direct_read(&mut written, &stop, StreamRead::Chunk(10)),
        DirectAction::Close
    ));
    assert_eq!(written, 15);
    let result = direct_result(plan, written, &stop).unwrap();
    assert_eq!(result.bytes_written, 15);
    assert!(result.stopped_by_user);
    let nothing = DirectPlan { final_path: "a".to_string(), part_path: "b".to_string() };
    assert_eq!(direct_result(nothing, 0, &stop).unwrap_err(), "直播源没有返回任何媒体数据。");
}

#[test]
fn a_room_is_recorded_once() {
    let mut runtime = MultiRecordingRuntime::default();
    match runtime.consider("  ") {
        Admission::Refused(message) => assert_eq!(message, "直播间地址为空。"),
        other => panic!("{other:?}"),
    }
    match runtime.consider(" room1 ") {
        Admission::Proceed(address) => assert_eq!(address, "room1"),
        other => panic!("{other:?}"),
    }
    runtime.begin("room1", "甲", "/rec", 20);
    runtime.begin("room2", "乙", "/rec", 10);
    assert!(matches!(runtime.consider("room1 "), Admission::AlreadyRecording));
    let status = runtime.status(Some(32_212_254_719));
    assert!(status.active && status.low_space_warning);
    assert_eq!(status.active_count, 2);
    assert_eq!(status.recordings[0].room_url, "room2");
    assert_eq!(status.recordings[1].room_url, "room1");
    assert!(!runtime.status(Some(32_212_254_720)).low_space_warning);
    assert!(!runtime.status(None).low_space_warning);
    assert_eq!(runtime.stop_rooms(Some("room2")), ["room2"]);
    assert_eq!(runtime.stop_rooms(Some("room3")).len(), 0);
    assert!(!runtime.recordings[0].stop_flag.requested);
    runtime.request_stop_all();
    assert!(runtime.recordings[0].stop_flag.requested);
    runtime.end("room1");
    assert!(!runtime.is_recording("room1"));
    assert!(runtime.is_recording("room2"));
    runtime.set_last_error("e".to_string());
    runtime.set_last_file("f".to_string());
    assert_eq!(runtime.last_error, None);
    assert_eq!(runtime.last_file.as_deref(), Some("f"));
}

#[test]
fn free_space_is_shown_in_gib() {
    for bytes in [0u64, 53_687_091, 161_061_274, 10_737_418_239, 5_368_709_120, 1 << 28, 3 << 28] {
        assert_eq!(format_gib(bytes), format!("{:.1}", bytes as f64 / 1024.0 / 1024.0 / 1024.0));
    }
    assert!(check_start_space(10_737_418_240).is_ok());
    assert_eq!(
        check_start_space(5_368_709_120).unwrap_err(),
        "可用存储空间不足 10GB（当前约 5.0GB），拒绝启动新的录像；已有录像不会被强制中断。"
    );
}

#[test]
fn the_journal_is_cleared_only_after_the_queue_took_the_part() {
    let mut step = HandoffStep::Register;
    let mut taken = vec![step];
    while let HandoffOutcome::Next(next) = handoff_outcome(step, 3, &Ok(())) {
        step = next;
        taken.push(step);
    }
    assert_eq!(
        taken,
        [HandoffStep::Register, HandoffStep::Finalize, HandoffStep::Enqueue, HandoffStep::Complete]
    );
    let failed = Err("x".to_string());
    let messages = [
        "P3 已安全切出但 journal 持久化失败，停止后处理且保留源文件: x",
        "P3 MP4 收尾失败，源录像和 journal 均保留: x",
        "P3 已生成但加入 B站队列失败，本地文件及 journal 均保留: x",
        "P3 已进入 B站队列，但清理 journal 标记失败，将在重启后安全复核: x",
    ];
    for (step, expected) in taken.into_iter().zip(messages) {
        match handoff_outcome(step, 3, &failed) {
            HandoffOutcome::Stopped(message) => assert_eq!(message, expected),
            other => panic!("{other:?}"),
        }
    }
    assert_eq!(closing_outcome(ClosingStep::MarkComplete, &Ok(())), Ok(Some(ClosingStep::FinishJournal)));
    assert_eq!(closing_outcome(ClosingStep::FinishJournal, &Ok(())), Ok(None));
    assert_eq!(
        closing_outcome(ClosingStep::MarkComplete, &failed),
        Err("保存 B站 session 完成状态失败，recording journal 保留: x".to_string())
    );
    assert_eq!(
        closing_outcome(ClosingStep::FinishJournal, &failed),
        Err("B站 session 已标记结束，但清理 recording journal 失败: x".to_string())
    );
}

#[test]
fn a_finished_file_is_never_overwritten_by_a_remux() {
    assert!(matches!(plan_mp4("a.mp4", "a.mp4", true, true, 7), Mp4Plan::UseSource));
    assert!(matches!(plan_mp4("a.flv", "a.mp4", false, true, 7), Mp4Plan::UseFinal));
    match plan_mp4("a.flv", "a.mp4", true, true, 7) {
        Mp4Plan::Remux { quarantine, temp } => {
            assert_eq!(quarantine.as_deref(), Some("a.mp4.unverified-7"));
            assert_eq!(temp, "a.mp4.remuxing");
        }
        other => panic!("{other:?}"),
    }
    match plan_mp4("a.flv", "a.mp4", false, false, 7) {
        Mp4Plan::Remux { quarantine, .. } => assert_eq!(quarantine, None),
        other => panic!("{other:?}"),
    }
    assert!(matches!(plan_mp4("/r//a.mp4", "/r/./a.mp4", true, true, 7), Mp4Plan::UseSource));
    assert!(check_remux_output("x", "x").is_ok());
    assert!(check_remux_output("/r//x", "/r/x/").is_ok());
    assert_eq!(check_remux_output("y", "x").unwrap_err(), "Android MP4 finalize 返回了意外路径: y");
}

#[test]
fn an_empty_file_is_refused() {
    assert!(verify_nonempty_file("a", &Ok(FileFacts { is_file: true, len: 1 })).is_ok());
    assert_eq!(
        verify_nonempty_file("a", &Ok(FileFacts { is_file: true, len: 0 })).unwrap_err(),
        "录像文件为空: a"
    );
    assert_eq!(
        verify_nonempty_file("a", &Ok(FileFacts { is_file: false, len: 9 })).unwrap_err(),
        "录像文件为空: a"
    );
    assert_eq!(
        verify_nonempty_file("a", &Err("gone".to_string())).unwrap_err(),
        "录像文件不存在 a: gone"
    );
}

#[test]
fn a_recording_starts_step_by_step() {
    let e = || "x".to_string();
    assert!(matches!(
        on_start_event(StartEvent::DirectoryReady(Ok(()))),
        StartDecision::MeasureSpace
    ));
    assert!(matches!(
        on_start_event(StartEvent::SpaceMeasured(Ok(10_737_418_240))),
        StartDecision::PrepareSession
    ));
    assert!(matches!(on_start_event(StartEvent::SessionPrepared(Ok(false))), StartDecision::Begin));
    assert!(matches!(
        on_start_event(StartEvent::SessionPrepared(Ok(true))),
        StartDecision::CloseStale
    ));
    assert!(matches!(on_start_event(StartEvent::StaleClosed(Ok(()))), StartDecision::Begin));
    let refused = [
        (StartEvent::DirectoryReady(Err(e())), "创建录制目录失败: x"),
        (StartEvent::SpaceMeasured(Err(e())), "检查可用磁盘空间失败: x"),
        (StartEvent::SessionPrepared(Err(e())), "x"),
        (StartEvent::StaleClosed(Err(e())), "关闭旧 liveSession 失败，为避免拆稿已停止新录制: x"),
        (
            StartEvent::SpaceMeasured(Ok(0)),
            "可用存储空间不足 10GB（当前约 0.0GB），拒绝启动新的录像；已有录像不会被强制中断。",
        ),
    ];
    for (event, expected) in refused {
        match on_start_event(event) {
            StartDecision::Refuse(message) => assert_eq!(message, expected),
            other => panic!("{other:?}"),
        }
    }
    assert_eq!(background_failed("x"), "录像已启动，但更新 Android 后台保活状态失败: x");
    assert_eq!(shown_error(Ok(None), Some(e())).as_deref(), Some("x"));
    assert_eq!(shown_error(Ok(Some("y".to_string())), Some(e())).as_deref(), Some("y"));
    assert_eq!(shown_error(Err("z".to_string()), None).as_deref(), Some("z"));
}

#[test]
fn only_a_live_room_is_recorded_on_request() {
    let live = stream_to_record(Ok(ProbeResult::Live { stream: stream("甲", "flv") })).unwrap();
    assert_eq!(live.name, "甲");
    assert_eq!(stream_to_record(Ok(ProbeResult::Offline)).unwrap_err(), "主播当前未开播。");
    assert_eq!(stream_to_record(Err("e".to_string())).unwrap_err(), "e");
}

fn resumed_plan() -> RecordingPlan {
    let mut plan = RecordingPlan::new(
        "https://live.bilibili.com/1".to_string(),
        "A".to_string(),
        CoreCredentials::default(),
        ".".to_string(),
    );
    plan.live_session_id = Some("s1".to_string());
    plan.session_started_at = Some(1_700_000_000);
    plan.segment_started_at = Some(1_700_003_600);
    plan.next_segment_index = 3;
    plan
}

#[test]
fn a_resumed_session_reports_the_start_of_its_plan() {
    let mut counter = IdCounter { next: 4 };
    let mut flag = new_stop_flag();
    request_stop(&mut flag);
    let session = LiveSession::begin(resumed_plan(), &mut counter);
    assert_eq!(counter.next, 4);
    assert_eq!(session.segment_started.timestamp, 1_700_003_600);
    assert_eq!(session.on_stop_check(flag.requested), SessionAction::Finish);
    let result = session.finish(1_700_009_999, flag.requested);
    assert_eq!(result.live_session_id, "s1");
    assert_eq!(result.streamer_name, "A");
    assert_eq!(result.platform, "");
    assert_eq!(result.room_url, "https://live.bilibili.com/1");
    assert_eq!(result.started_at, 1_700_000_000);
    assert!(result.stopped_by_user);
    assert!(result.segments.is_empty());
    assert_eq!(result.last_error, None);
}

#[test]
fn a_new_session_begins_now_under_a_fresh_identifier() {
    let mut plan = resumed_plan();
    plan.live_session_id = None;
    plan.session_started_at = None;
    plan.segment_started_at = None;
    let mut counter = IdCounter { next: 4 };
    let session = LiveSession::begin(plan, &mut counter);
    assert_eq!(counter.next, 5);
    let stamp = &session.session_started.stamp;
    assert_eq!(stamp.len(), 17);
    assert_eq!(session.live_session_id, format!("A-{stamp}-4"));
    assert_eq!(session.segment_started.timestamp, session.session_started.timestamp);
    assert!(session.session_started.timestamp >= chrono::Utc::now().timestamp() - 60);
}

#[test]
fn a_part_without_a_readable_start_begins_with_its_session() {
    let mut plan = resumed_plan();
    plan.segment_started_at = Some(i64::MAX);
    let (session, part) = session_times(&plan);
    assert_eq!((session.timestamp, part.timestamp), (1_700_000_000, 1_700_000_000));
    let (session, part) = session_times_from(None, None, local_time(77));
    assert_eq!((session.timestamp, part.timestamp), (77, 77));
    let (session, part) = session_times_from(Some(local_time(5)), Some(local_time(6)), local_time(77));
    assert_eq!((session.timestamp, part.timestamp), (5, 6));
}
