[package]
name = "live_replay"
version = "0.1.0"
edition = "2021"
publish = false

[dependencies]
chrono = { version = "=0.4.45", features = ["serde"] }
serde = { version = "=1.0.229", features = ["derive"] }
serde_json = "=1.0.154"
m3u8-rs = "=6.0.1"
url = "=2.5.8"
shellexpand = "=3.1.2"
rand = "=0.9.5"
humantime = "=2.4.0"
fs2 = "=0.4.3"
futures = "=0.3.34"
clap = { version = "=4.6.7", features = ["derive"] }
tokio = { version = "=1.54.1", features = ["fs", "io-util", "macros", "process", "rt-multi-thread", "signal", "sync", "time"] }
tracing = "=0.1.44"
axum = { version = "=0.8.9", default-features = false, features = ["http1", "tokio"] }
reqwest = { version = "=0.12.28", default-features = false, features = ["json", "rustls-tls", "stream"] }
sqlx = { version = "=0.8.6", default-features = false, features = ["macros", "migrate", "runtime-tokio", "sqlite"] }
tower = { version = "=0.5.3", features = ["util"] }
tower-http = { version = "=0.6.11", features = ["fs"] }
