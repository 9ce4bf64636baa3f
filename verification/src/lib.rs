//! Verified core of Live Replay: recording sessions, upload queues, recovery and scheduling rules.

pub mod accounts;
pub mod bilibili_attempt;
pub mod bilibili_queue;
pub mod bilibili_worker;
pub mod cli;
pub mod clock;
pub mod downloads;
pub mod finalize;
pub mod hls;
pub mod journal;
pub mod json;
pub mod line;
pub mod lists;
pub mod monitor;
pub mod naming;
pub mod paths;
pub mod recording;
pub mod recordings;
pub mod recovery;
pub mod replay_actions;
pub mod replay_attempt;
pub mod replay_domain;
pub mod replay_files;
pub mod replay_outbox;
pub mod replay_queue;
pub mod replay_recovery;
pub mod replay_rows;
pub mod replay_sessions;
pub mod replay_views;
pub mod retry;
pub mod settings;
pub mod state;
pub mod statuses;
pub mod text;
pub mod upload;
pub mod workers;
pub mod youtube;
pub mod youtube_attempt;
