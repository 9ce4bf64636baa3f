use live_replay::downloads::DownloadConfig;
use live_replay::line::pressure_limit_for_age_ms;
use live_replay::replay_domain::{user_state, ReplayActivity, ReplayUserState};
use live_replay::replay_queue::retry_delay;
use live_replay::replay_sessions::{env_bool, extract_remote_ids, ResponseData};

#[test]
fn retry_schedule_caps_at_one_hour() {
    assert_eq!(retry_delay(1), 60);
    assert_eq!(retry_delay(2), 300);
    assert_eq!(retry_delay(3), 900);
    assert_eq!(retry_delay(4), 1800);
    assert_eq!(retry_delay(5), 3600);
    assert_eq!(retry_delay(20), 3600);
}

#[test]
fn extracts_standard_submit_ids() {
    let response = ResponseData {
        data: Some(r#"{"aid": 123, "bvid": "BV1test"}"#.to_string()),
        shown: String::new(),
    };
    let (aid, bvid) = extract_remote_ids(&response).unwrap();
    assert_eq!(aid, 123);
    assert_eq!(bvid.as_deref(), Some("BV1test"));
}

#[test]
fn delete_is_opt_in() {
    assert!(!env_bool(None, false));
}

#[test]
fn live_replay_uses_15gb_size_segments() {
    let mut config = DownloadConfig::default();
    config.segment_time = Some("01:00:00".to_string());
    config.file_size = Some(1024);

    config.apply_live_replay_segment_policy();

    assert_eq!(config.segment_time, None);
    assert_eq!(config.file_size, Some(15_000_000_000));
}

#[test]
fn user_state_has_stable_priority() {
    let pending = ReplayActivity {
        pending_upload_parts: 2,
        needs_attention: false,
    };
    assert_eq!(user_state(true, "Working", pending), ReplayUserState::Recording);
    assert_eq!(user_state(true, "Idle", pending), ReplayUserState::Uploading);
    assert_eq!(
        user_state(
            true,
            "Working",
            ReplayActivity {
                pending_upload_parts: 1,
                needs_attention: true,
            },
        ),
        ReplayUserState::Error
    );
    assert_eq!(
        user_state(false, "Pause", ReplayActivity::default()),
        ReplayUserState::Waiting
    );
}

#[test]
fn pressure_recovery_is_gradual() {
    assert_eq!(pressure_limit_for_age_ms(0).map(|mbps| mbps as f64), Some(5.0));
    assert_eq!(pressure_limit_for_age_ms(15_000).map(|mbps| mbps as f64), Some(10.0));
    assert_eq!(pressure_limit_for_age_ms(30_000).map(|mbps| mbps as f64), Some(25.0));
    assert_eq!(pressure_limit_for_age_ms(60_000).map(|mbps| mbps as f64), Some(50.0));
    assert_eq!(pressure_limit_for_age_ms(120_000).map(|mbps| mbps as f64), None);
}
