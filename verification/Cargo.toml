[package]
name = "warpgate_connect"
version = "0.1.0"
edition = "2021"
publish = false

[dependencies]
clap = { version = "4", features = ["derive"] }
crossterm = { version = "=0.29.0", features = ["event-stream"] }
directories = "*"
futures = "0.3"
nucleo-matcher = "=0.3.1"
ratatui = "=0.30.2"
ratatui-textarea = "=0.9.4"
reqwest = { version = "=0.13.5", default-features = false, features = ["json", "rustls", "http2"] }
self_update = { version = "=1.3.3", default-features = false, features = ["reqwest", "rustls", "github", "archive-tar", "compression-tar-gz"] }
serde = { version = "1", features = ["derive"] }
serde_json = "1"
tokio = { version = "1", features = ["full"] }
toml = "*"
tracing = "0.1"
tracing-subscriber = { version = "0.3", features = ["env-filter"] }
tui-logger = { version = "*", features = ["tracing-support"] }

[dev-dependencies]
serde_json = "1"
