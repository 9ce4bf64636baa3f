use std::collections::HashMap;

use live_replay::downloads::{
    cooldown_ms, minimum_file_size, note_danmaku, parse_duration, segment_route, stream_format,
    AfterDownload,
    DownloadConfig, DownloadLoop, DownloadStatus, DownloaderRuntime, DownloaderType,
    HeaderRead, RetryPolicy, SegmentInfo, SegmentRoute, StreamCheck, StreamFormat,
};
use live_replay::line::{
    alia, bda, bda2, bldsa, choose_line, cntx, current_pressure_limit_mbps, get_upload_line,
    is_recording_active, ping, pre_upload_failure, pressure_limit_for_age_ms, probe_address,
    rate_setting, recording_finished, recording_started, tx, txa, ActiveRecordings,
    DownloadHealthRegistry, DownloadPressureGuard, Line, Parcel, Ping, PreUploadFailure,
    ProbedLine, RateKey, UploadSchedule, VideoFile,
};
use live_replay::workers::{
    cleanup, ensure_recording_space, find_worker, free_space_bytes, free_space_number,
    recording_output_dir, usable_directory, RecordingSpace, Stage, Worker, WorkerStatus,
};

fn video(path: &str) -> VideoFile {
    VideoFile { file_name: "a.mp4".to_string(), filepath: path.to_string(), total_size: 42 }
}

#[test]
fn lines_are_known_by_name() {
    assert_eq!(get_upload_line("bda2").unwrap().query, bda2().query);
    assert_eq!(get_upload_line("bda").unwrap().query, bda().query);
    assert_eq!(get_upload_line("tx").unwrap().query, tx().query);
    assert_eq!(get_upload_line("txa").unwrap().query, txa().query);
    assert_eq!(get_upload_line("bldsa").unwrap().query, bldsa().query);
    assert_eq!(get_upload_line("alia").unwrap().query, alia().query);
    assert!(get_upload_line("AUTO").is_none());
    assert_eq!(cntx().probe_url, "//upos-cs-upcdntx.bilivideo.com/OK");
    assert_eq!(probe_address(&tx()), "https://upos-cs-upcdntx.bilivideo.com/OK");
    assert_eq!(Line::default().cost, u128::MAX);
}

#[test]
fn the_fastest_line_is_chosen() {
    let probed = |cost: Option<u128>, line: Line| ProbedLine { line, cost };
    let chosen = choose_line(vec![
        probed(None, alia()),
        probed(Some(30), tx()),
        probed(Some(20), bda2()),
        probed(Some(20), txa()),
    ]);
    assert_eq!((chosen.query, chosen.cost), (bda2().query, 20));
    assert_eq!(choose_line(vec![probed(None, tx())]).query, bldsa().query);
    assert_eq!(ping(r#"{"get":"/x"}"#), Ping::Get);
    assert_eq!(ping(r#"{"get":null,"post":1}"#), Ping::Post { bytes: 10_485_760 });
    assert_eq!(ping("get"), Ping::Post { bytes: 10_485_760 });
}

#[test]
fn an_upload_is_announced() {
    let items = tx().pre_upload_query(&video("/v/a.mp4"));
    let shown: Vec<String> = items.iter().map(|i| format!("{}={}", i.name, i.value)).collect();
    assert_eq!(
        shown,
        [
            "name=a.mp4", "r=upos", "profile=ugcupos/bup", "ssl=0", "version=2.14.0",
            "build=2140000", "size=42",
        ]
    );
    assert_eq!(
        tx().pre_upload_address(),
        "https://member.bilibili.com/preupload?zone=cs&upcdn=tx&probe_version=20221109"
    );
    let parcel = |path: &str| Parcel { bucket: String::new(), video_file: video(path) };
    assert_eq!(parcel("/v/名字.mp4").title(None).as_deref(), Some("名字"));
    assert_eq!(parcel(&format!("/v/{}.mp4", "长".repeat(90))).title(None), Some("长".repeat(80)));
    assert_eq!(parcel("/v/a.mp4").title(Some("t".to_string())).as_deref(), Some("t"));
}

#[test]
fn refusals_of_an_upload_are_read() {
    match pre_upload_failure(r#"{"code":601,"message":"slow down"}"#) {
        PreUploadFailure::RateLimit { code, message } => {
            assert_eq!((code, message.as_str()), (601, "slow down"))
        }
        other => panic!("{other:?}"),
    }
    match pre_upload_failure(r#"{"code":601}"#) {
        PreUploadFailure::RateLimit { message, .. } => assert_eq!(message, "上传过快"),
        other => panic!("{other:?}"),
    }
    match pre_upload_failure(r#"{"code":602}"#) {
        PreUploadFailure::Other(message) => {
            assert_eq!(message, r#"Failed to pre_upload from {"code":602}"#)
        }
        other => panic!("{other:?}"),
    }
}

#[test]
fn one_slow_stream_slows_uploads_whatever_the_others_do() {
    let mut registry = DownloadHealthRegistry::new();
    let slow = DownloadPressureGuard::new(&mut registry);
    let fine = DownloadPressureGuard::new(&mut registry);
    assert_eq!(current_pressure_limit_mbps(&registry, 1_000), None);
    slow.report_progress(&mut registry, 10, 1_000);
    assert_eq!(current_pressure_limit_mbps(&registry, 1_000), None);
    slow.report_progress(&mut registry, 0, 1_000);
    fine.report_progress(&mut registry, 500, 2_000);
    assert_eq!(current_pressure_limit_mbps(&registry, 1_000), Some(5));
    assert_eq!(current_pressure_limit_mbps(&registry, 16_000), Some(10));
    assert_eq!(current_pressure_limit_mbps(&registry, 500), Some(5));
    assert_eq!(current_pressure_limit_mbps(&registry, 121_000), None);
    slow.release(&mut registry);
    assert_eq!(current_pressure_limit_mbps(&registry, 1_000), None);
    let limits: Vec<Option<u64>> =
        [14_999, 29_999, 59_999, 119_999].map(pressure_limit_for_age_ms).to_vec();
    assert_eq!(limits, [Some(5), Some(10), Some(25), Some(50)]);
}

#[test]
fn uploads_give_way_to_recordings() {
    let mut active = ActiveRecordings { count: 0 };
    let mut registry = DownloadHealthRegistry::new();
    let guard = DownloadPressureGuard::new(&mut registry);
    let idle = rate_setting(&active, &registry, 1_000);
    assert_eq!((idle.key.name(), idle.default_mbps), ("LIVE_REPLAY_UPLOAD_LIMIT_MBPS", 0));
    recording_started(&mut active);
    assert!(is_recording_active(&active));
    let recording = rate_setting(&active, &registry, 1_000);
    assert_eq!((recording.key, recording.default_mbps), (RateKey::Recording, 100));
    guard.report_pressure(&mut registry, 1_000);
    let pressed = rate_setting(&active, &registry, 1_000);
    assert_eq!((pressed.key, pressed.default_mbps), (RateKey::Pressure, 5));
    recording_finished(&mut active);
    recording_finished(&mut active);
    assert_eq!(active.count, 0);
}

#[test]
fn pieces_of_an_upload_are_spaced() {
    let mut plan = UploadSchedule { next: 0 };
    assert_eq!(plan.reserve(100, 50), 0);
    assert_eq!(plan.reserve(110, 50), 40);
    assert_eq!(plan.reserve(500, u64::MAX), 0);
    assert_eq!(plan.next, u64::MAX);
    plan.reset(600);
    assert_eq!(plan.reserve(600, 1), 0);
}

#[test]
fn downloads_are_configured() {
    let config = DownloadConfig::new(
        "u".to_string(),
        None,
        HashMap::new(),
        "t".to_string(),
        "/rec".to_string(),
        None,
        "flv".to_string(),
    );
    assert_eq!(config.segment_time.as_deref(), Some("01:00:00"));
    assert_eq!((config.suffix.as_str(), config.file_size), ("flv", None));
    assert_eq!(config.generate_output_filename("a.flv"), "/rec/a.flv");
    let named = DownloadConfig::new(
        "u".to_string(),
        Some("00:30:00".to_string()),
        HashMap::new(),
        "t".to_string(),
        "/rec".to_string(),
        Some("mp4".to_string()),
        "flv".to_string(),
    );
    assert_eq!((named.segment_time.as_deref(), named.suffix.as_str()), (Some("00:30:00"), "mp4"));
    assert_eq!(DownloaderRuntime::from_type(DownloaderType::Ffmpeg), DownloaderRuntime::Ffmpeg);
    assert_eq!(DownloaderRuntime::from_type(DownloaderType::YtDlp), DownloaderRuntime::StreamGears);
    assert_eq!(DownloaderType::YtDlp.name(), "yt-dlp");
    assert_eq!(parse_duration("01:02:03"), 3_723);
    assert_eq!(parse_duration("x:02:03"), 123);
    assert_eq!(parse_duration("02:03"), 0);
    let policy = RetryPolicy::exponential(4);
    assert_eq!((policy.max_attempts, policy.base_delay_ms, policy.max_delay_ms), (4, 100, 30_000));
}

#[test]
fn failed_downloads_cool_down() {
    assert_eq!(cooldown_ms(&Err("e".to_string()), 1_000), 4_000);
    assert_eq!(cooldown_ms(&Ok(DownloadStatus::StreamEnded), 0), 5_000);
    assert_eq!(cooldown_ms(&Ok(DownloadStatus::Error("e".to_string())), 6_000), 0);
    assert_eq!(cooldown_ms(&Ok(DownloadStatus::SegmentCompleted), 0), 0);
    assert_eq!(cooldown_ms(&Ok(DownloadStatus::Downloading), 0), 0);
}

#[test]
fn a_live_stream_is_downloaded_on() {
    let mut turns = DownloadLoop::new(5);
    assert_eq!(turns.after_download(false, StreamCheck::Offline), AfterDownload::Again { delay_secs: 4 });
    assert_eq!(turns.after_download(false, StreamCheck::Failed), AfterDownload::Again { delay_secs: 5 });
    assert_eq!(turns.after_download(false, StreamCheck::Live), AfterDownload::Again { delay_secs: 0 });
    turns.after_download(false, StreamCheck::Offline);
    turns.after_download(false, StreamCheck::Offline);
    assert_eq!(turns.after_download(false, StreamCheck::Offline), AfterDownload::Stop);
    let mut stopped = DownloadLoop::new(0);
    assert_eq!(stopped.max_delay_secs, 1);
    assert_eq!(stopped.after_download(true, StreamCheck::Live), AfterDownload::Stop);
}

#[test]
fn finished_segments_are_routed() {
    assert_eq!(minimum_file_size(true, 20), 0);
    assert_eq!(minimum_file_size(true, u64::MAX), 0);
    assert_eq!(minimum_file_size(false, 20), 20_000_000);
    assert_eq!(segment_route(true, false), SegmentRoute::Open);
    assert_eq!(segment_route(false, true), SegmentRoute::NewQueue);
    assert_eq!(segment_route(false, false), SegmentRoute::NewUploader);
    let mut info = SegmentInfo::new("/v/a.flv".to_string(), None, None, 1);
    note_danmaku(&mut info, false);
    assert_eq!(info.danmaku_file_path, None);
    note_danmaku(&mut info, true);
    assert_eq!(info.danmaku_file_path.as_deref(), Some("/v/a.xml"));
}

#[test]
fn a_recording_that_is_left_is_stopped() {
    let mut worker = Worker::new(3);
    assert_eq!(worker.status(Stage::Download), WorkerStatus::Idle);
    assert_eq!(worker.change_status(Stage::Download, WorkerStatus::Working(7)), None);
    assert_eq!(worker.change_status(Stage::Download, WorkerStatus::Working(8)), None);
    assert_eq!(worker.change_status(Stage::Upload, WorkerStatus::Pending), None);
    assert_eq!(worker.change_status(Stage::Download, WorkerStatus::Pause), Some(8));
    assert_eq!(worker.change_status(Stage::Download, WorkerStatus::Idle), None);
    assert_eq!(worker.status(Stage::Upload).name(), "Pending");
    let mut workers = vec![Worker::new(1), worker];
    workers[0].change_status(Stage::Download, WorkerStatus::Working(9));
    assert_eq!(find_worker(&workers, 3).unwrap().id(), 3);
    assert!(find_worker(&workers, 4).is_none());
    assert!(workers[0] == Worker::new(1));
    assert_eq!(cleanup(&mut workers), [9]);
    assert_eq!(workers[0].status(Stage::Download), WorkerStatus::Idle);
}

#[test]
fn recordings_need_space() {
    assert_eq!(recording_output_dir(Some("/v"), true), "/v");
    assert_eq!(recording_output_dir(Some(" "), false), "recordings");
    assert_eq!(recording_output_dir(None, true), "D:\\LiveReplay\\Recordings");
    assert_eq!(usable_directory("/v".to_string(), true), "/v");
    assert_eq!(usable_directory("/v".to_string(), false), ".");
    let gib = 1_073_741_824u64;
    assert_eq!(ensure_recording_space("/v", None, None, None), Ok(RecordingSpace::Unknown));
    assert_eq!(ensure_recording_space("/v", Some(100 * gib), None, None), Ok(RecordingSpace::Enough));
    assert_eq!(ensure_recording_space("/v", Some(30 * gib), None, None), Ok(RecordingSpace::Low));
    assert_eq!(
        ensure_recording_space("/v", Some(gib + gib / 2), None, Some("2")),
        Err("录像目录 /v 仅剩 1.5 GB，低于停止阈值 2 GB；不会开始新的录像".to_string())
    );
    let report = "Filesystem 1024-blocks Used Available Capacity Mounted on\n/dev/sda1 100 40 60 40% /\n";
    assert_eq!(free_space_bytes(report), Some(61_440));
    assert_eq!(free_space_bytes(""), None);
    assert_eq!(free_space_bytes("a b c"), None);
    assert_eq!(free_space_number(" 12345\r\n"), Some(12_345));
    assert_eq!(free_space_number("x"), None);
}

#[test]
fn streams_are_told_apart_by_their_beginning() {
    assert_eq!(stream_format(HeaderRead::Flv), Ok(StreamFormat::Flv));
    assert_eq!(stream_format(HeaderRead::Other), Ok(StreamFormat::Hls));
    assert_eq!(
        stream_format(HeaderRead::Incomplete("Size(3)".to_string())),
        Err("直播流头部数据不完整：Size(3)".to_string())
    );
}
