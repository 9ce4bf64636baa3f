use live_replay::clock::{IdCounter, LocalTime};
use live_replay::journal::{
    advance_recovered_segment, complete_segment_handoff, finish_session, has_pending, heartbeat,
    heartbeat_at, prepare_session, prepare_session_at, register_completed_segment,
    register_recovered_segment, resumable, RecordingJournalSession, RecordingJournalStore,
};
use live_replay::recording::RecordingSegment;
use live_replay::recordings::FileFacts;
use live_replay::recovery::{
    after_recovery_step, check_recovered_source, classify_raw, classify_source, clear_failed,
    close_failed, discover_raws, discover_sources, pending_failed, pending_in_order,
    plain_file_name, recovered_end, recovery_result, segment_from_recovered_source,
    stale_sessions, system_time_seconds, DirectoryEntry, Origin, RawDecision, RecoveryNext,
    RecoveryStep, SourceDecision,
};

fn segment(session: &str, index: u32, ended_at: i64) -> RecordingSegment {
    RecordingSegment {
        live_session_id: session.to_string(),
        segment_index: index,
        streamer_name: "甲".to_string(),
        platform: "bilibili".to_string(),
        room_url: "room".to_string(),
        source_path: "s".to_string(),
        final_mp4_path: "f".to_string(),
        local_file_name: "f".to_string(),
        youtube_title: "t".to_string(),
        started_at: 0,
        ended_at,
        bytes_written: 1,
    }
}

fn entry(id: &str, room: &str, next: u32, started: i64, heartbeat: i64) -> RecordingJournalSession {
    RecordingJournalSession {
        room_url: room.to_string(),
        streamer_name: "甲".to_string(),
        live_session_id: id.to_string(),
        session_started_at: 5,
        next_segment_index: next,
        current_segment_started_at: started,
        last_heartbeat_at: heartbeat,
    }
}

fn keys(store: &RecordingJournalStore) -> Vec<(&str, u32)> {
    store
        .pending_segments
        .iter()
        .map(|s| (s.live_session_id.as_str(), s.segment_index))
        .collect()
}

fn at(hour: &str, minute: &str) -> LocalTime {
    LocalTime {
        timestamp: 0,
        date: "2024-05-06".to_string(),
        hour: hour.to_string(),
        minute: minute.to_string(),
        second: "07".to_string(),
        stamp: String::new(),
    }
}

#[test]
fn a_reconnect_within_the_grace_period_resumes_the_session() {
    let mut store = RecordingJournalStore::default();
    let first = prepare_session_at(&mut store, "room", "甲", 1_000, "a".to_string());
    assert_eq!((first.live_session_id.as_str(), first.next_segment_index), ("a", 1));
    register_recovered_segment(&mut store, "room", &segment("a", 1, 1_200), 1_300);
    let again = prepare_session_at(&mut store, "room", "乙", 1_900, "b".to_string());
    assert_eq!(again.live_session_id, "a");
    assert_eq!(again.next_segment_index, 2);
    assert_eq!(again.session_started_at, 1_000);
    assert_eq!(again.current_segment_started_at, 1_200);
    assert_eq!(again.stale_session, None);
    assert_eq!(store.sessions.len(), 1);
    assert_eq!(store.sessions[0].streamer_name, "乙");
    assert_eq!(store.sessions[0].last_heartbeat_at, 1_900);
}

#[test]
fn a_later_start_opens_a_new_session() {
    let mut store = RecordingJournalStore::default();
    prepare_session_at(&mut store, "room", "甲", 1_000, "a".to_string());
    prepare_session_at(&mut store, "other", "乙", 1_000, "o".to_string());
    let new = prepare_session_at(&mut store, "room", "甲", 1_601, "b".to_string());
    assert_eq!(new.live_session_id, "b");
    assert_eq!(new.stale_session, Some(("a".to_string(), 1_000)));
    let rooms: Vec<&str> = store.sessions.iter().map(|s| s.room_url.as_str()).collect();
    assert_eq!(rooms, ["other", "room"]);
    assert!(resumable(1_000, 1_600));
    assert!(!resumable(1_000, 1_601));
    assert!(!resumable(i64::MIN, i64::MAX));
}

#[test]
fn sessions_prepared_now_carry_the_clock() {
    let mut store = RecordingJournalStore::default();
    let mut counter = IdCounter::new();
    let prepared = prepare_session(&mut store, &mut counter, "room", "甲");
    let now = chrono::Utc::now().timestamp();
    assert!((now - prepared.session_started_at).abs() < 60);
    assert!(prepared.live_session_id.starts_with("android-"));
    assert_eq!(counter.next, 1);
    let again = prepare_session(&mut store, &mut counter, "room", "乙");
    assert_eq!(again.live_session_id, prepared.live_session_id);
    assert_eq!(store.sessions[0].streamer_name, "乙");
    assert_eq!(counter.next, 1);
    store.sessions[0].last_heartbeat_at = 0;
    heartbeat(&mut store, "room");
    assert!((now - store.sessions[0].last_heartbeat_at).abs() < 60);
    register_completed_segment(&mut store, "room", &segment("x", 9, 77));
    assert_eq!(store.sessions[0].next_segment_index, 10);
    assert_eq!(store.sessions[0].current_segment_started_at, 77);
    assert!((now - store.sessions[0].last_heartbeat_at).abs() < 60);
}

#[test]
fn a_part_is_registered_once_and_kept_in_order() {
    let mut store = RecordingJournalStore::default();
    for (session, index) in [("b", 2), ("a", 3), ("b", 1), ("a", 3)] {
        register_recovered_segment(&mut store, "room", &segment(session, index, 1), 1);
    }
    assert_eq!(keys(&store), [("a", 3), ("b", 1), ("b", 2)]);
    assert!(has_pending(&store, "b", 1));
    complete_segment_handoff(&mut store, "b", 1);
    assert_eq!(keys(&store), [("a", 3), ("b", 2)]);
    assert!(!has_pending(&store, "b", 1));
}

#[test]
fn numbering_never_goes_back() {
    let mut store = RecordingJournalStore::default();
    store.sessions.push(entry("a", "room", 7, 10, 10));
    register_recovered_segment(&mut store, "room", &segment("a", 3, 50), 60);
    assert_eq!(store.sessions[0].next_segment_index, 7);
    assert_eq!(store.sessions[0].current_segment_started_at, 50);
    assert_eq!(store.sessions[0].last_heartbeat_at, 60);
    register_recovered_segment(&mut store, "room", &segment("a", u32::MAX, 90), 95);
    assert_eq!(store.sessions[0].next_segment_index, u32::MAX);
    let mut other = RecordingJournalStore::default();
    other.sessions.push(entry("a", "room", 7, 10, 10));
    advance_recovered_segment(&mut other, "a", 5, 30);
    assert_eq!(other.sessions[0].next_segment_index, 7);
    assert_eq!(other.sessions[0].current_segment_started_at, 30);
    advance_recovered_segment(&mut other, "a", 9, 40);
    assert_eq!(other.sessions[0].next_segment_index, 9);
    advance_recovered_segment(&mut other, "missing", 20, 50);
    assert_eq!(other.sessions[0].next_segment_index, 9);
    heartbeat_at(&mut other, "room", 99);
    assert_eq!(other.sessions[0].last_heartbeat_at, 99);
    finish_session(&mut other, "room");
    assert_eq!(other.sessions.len(), 0);
}

#[test]
fn leftover_sources_are_found_in_order() {
    let names: Vec<String> = [
        ".lr-b-P2-source.ts", "x.mp4", ".lr-a-P10-source.flv", ".lr-a-P9-source.flv", ".lr-a-P1.flv",
    ]
    .iter()
    .map(|n| n.to_string())
    .collect();
    let found = discover_sources(&names);
    let got: Vec<(&str, u32)> = found.iter().map(|s| (s.session_id.as_str(), s.index)).collect();
    assert_eq!(got, [("a", 9), ("a", 10), ("b", 2)]);

    let mut store = RecordingJournalStore::default();
    store.sessions.push(entry("a", "room", 9, 10, 10));
    store.pending_segments.push(segment("a", 10, 1));
    assert!(matches!(classify_source(&store, &found[1], "p"), SourceDecision::AlreadyPending));
    match classify_source(&store, &found[0], "p") {
        SourceDecision::Recover(session) => assert_eq!(session.live_session_id, "a"),
        other => panic!("{other:?}"),
    }
    match classify_source(&store, &found[2], "/rec/p") {
        SourceDecision::Orphan(message) => {
            assert_eq!(message, "发现无法归属的恢复源文件，已保留: /rec/p")
        }
        other => panic!("{other:?}"),
    }
}

#[test]
fn leftover_raw_files_go_to_their_session() {
    let mut store = RecordingJournalStore::default();
    store.sessions.push(entry("a", "room", 0, 10, 10));
    let entries = vec![
        DirectoryEntry { name: ".lr-a-raw-2.ts.part".to_string(), modified: 30 },
        DirectoryEntry { name: ".lr-z-raw-1.ts".to_string(), modified: 10 },
        DirectoryEntry { name: ".lr-a-raw-1.FLV".to_string(), modified: 20 },
        DirectoryEntry { name: ".lr-a-raw-3.txt".to_string(), modified: 20 },
    ];
    let raws = discover_raws(&entries, &store.sessions);
    let got: Vec<(&str, &str)> =
        raws.iter().map(|r| (r.name.as_str(), r.extension.as_str())).collect();
    assert_eq!(got, [(".lr-a-raw-1.FLV", "flv"), (".lr-a-raw-2.ts.part", "ts")]);
    match classify_raw(&store, &raws[0], "p", &Ok(14)) {
        RawDecision::Commit { index, source_name, .. } => {
            assert_eq!(index, 1);
            assert_eq!(source_name, ".lr-a-P1-source.flv");
        }
        other => panic!("{other:?}"),
    }
    assert!(matches!(classify_raw(&store, &raws[0], "p", &Ok(13)), RawDecision::Remove));
    match classify_raw(&store, &raws[0], "p", &Err("e".to_string())) {
        RawDecision::Report(message) => assert_eq!(message, "读取 raw 录像失败 p: e"),
        other => panic!("{other:?}"),
    }
    let empty = RecordingJournalStore::default();
    assert!(matches!(classify_raw(&empty, &raws[0], "p", &Ok(14)), RawDecision::Skip));
}

#[test]
fn a_recovered_part_is_described() {
    let session = entry("a", "room", 2, 100, 150);
    assert_eq!(recovered_end(&session, Some(90), 500), 100);
    assert_eq!(recovered_end(&session, Some(300), 500), 300);
    assert_eq!(recovered_end(&session, None, 500), 500);
    assert_eq!(check_recovered_source("p", &Ok(FileFacts { is_file: true, len: 3 })), Ok(3));
    assert_eq!(
        check_recovered_source("p", &Ok(FileFacts { is_file: true, len: 0 })),
        Err("恢复源文件为空: p".to_string())
    );
    assert_eq!(
        check_recovered_source("p", &Err("e".to_string())),
        Err("读取恢复源文件失败 p: e".to_string())
    );
    let (mut start, mut end) = (at("20", "00"), at("21", "30"));
    (start.timestamp, end.timestamp) = (100, 300);
    assert_eq!(plain_file_name("甲", &start, &end), "甲｜2024-05-06｜20：00-21：30.mp4");
    let part =
        segment_from_recovered_source(&session, 2, "/rec", "src", 9, 300, &start, &end, true);
    assert_eq!(part.final_mp4_path, "/rec/甲｜2024-05-06｜20：00-21：30｜P2.mp4");
    assert_eq!(part.youtube_title, "甲｜2024-05-06｜20:00-21:30");
    assert_eq!(part.platform, "restored");
    assert_eq!((part.started_at, part.ended_at, part.bytes_written), (100, 300, 9));
}

#[test]
fn recovery_reports_every_failure() {
    let failed = || Err("e".to_string());
    let cases = [
        (Origin::Raw, RecoveryStep::Opened(failed()), "打开 raw 录像失败 p: e"),
        (Origin::Raw, RecoveryStep::Synced(failed()), "同步 raw 录像失败 p: e"),
        (
            Origin::Raw,
            RecoveryStep::TargetChecked { exists: true },
            "恢复目标 P4 已存在，raw 文件保留避免覆盖: p",
        ),
        (Origin::Raw, RecoveryStep::Renamed(failed()), "提交 raw 恢复文件失败: e"),
        (Origin::Raw, RecoveryStep::Described(failed()), "e"),
        (Origin::Raw, RecoveryStep::Registered(failed()), "恢复 raw P4 写 journal 失败: e"),
        (Origin::Source, RecoveryStep::Registered(failed()), "恢复 P4 写 journal 失败: e"),
        (Origin::Raw, RecoveryStep::HandedOver(failed()), "恢复 raw P4 handoff 失败: e"),
        (Origin::Source, RecoveryStep::HandedOver(failed()), "恢复 P4 handoff 失败: e"),
    ];
    for (origin, step, expected) in cases {
        match after_recovery_step(origin, "p", 4, step) {
            RecoveryNext::Report(message) => assert_eq!(message, expected),
            other => panic!("{other:?}"),
        }
    }
    assert_eq!(recovery_result(&Vec::new()), Ok(()));
    assert_eq!(
        recovery_result(&vec!["a".to_string(), "b".to_string()]),
        Err("a; b".to_string())
    );
    assert_eq!(pending_failed(&segment("s", 4, 0), "e"), "恢复 s P4 失败: e");
    assert_eq!(close_failed("s", "e"), "关闭过期 session s 失败: e");
    assert_eq!(clear_failed("s", "e"), "清理过期 journal s 失败: e");
}

#[test]
fn recovery_renames_only_onto_a_free_name() {
    let ok = || Ok(());
    let next = |step| after_recovery_step(Origin::Raw, "p", 4, step);
    assert!(matches!(next(RecoveryStep::Opened(ok())), RecoveryNext::Sync));
    assert!(matches!(next(RecoveryStep::Synced(ok())), RecoveryNext::CheckTarget));
    assert!(matches!(next(RecoveryStep::TargetChecked { exists: false }), RecoveryNext::Rename));
    assert!(matches!(next(RecoveryStep::Renamed(ok())), RecoveryNext::Describe));
    assert!(matches!(next(RecoveryStep::Described(ok())), RecoveryNext::Register));
    assert!(matches!(next(RecoveryStep::Registered(ok())), RecoveryNext::HandOver));
    assert!(matches!(next(RecoveryStep::HandedOver(ok())), RecoveryNext::Done));
}

#[test]
fn silent_sessions_are_closed_at_their_last_sign_of_life() {
    let mut store = RecordingJournalStore::default();
    store.sessions.push(entry("a", "r1", 1, 900, 400));
    store.sessions.push(entry("b", "r2", 1, 300, 400));
    store.sessions.push(entry("c", "r3", 1, 300, 500));
    let stale = stale_sessions(&store, 1_100);
    let got: Vec<(&str, i64)> =
        stale.iter().map(|s| (s.live_session_id.as_str(), s.ended_at)).collect();
    assert_eq!(got, [("a", 900), ("b", 400)]);
    store.pending_segments.push(segment("b", 1, 0));
    store.pending_segments.push(segment("a", 2, 0));
    let pending = pending_in_order(&store);
    assert_eq!(pending[0].live_session_id, "a");
    assert_eq!(system_time_seconds(Some(7)), Some(7));
    assert_eq!(system_time_seconds(Some(u64::MAX)), None);
    assert_eq!(system_time_seconds(None), None);
}
