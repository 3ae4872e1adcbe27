[package]
name = "tokio-console"
version = "0.1.7"
edition = "2021"
publish = false

[dependencies]
atty = "0.2"
clap = { version = "~3.1.8", features = ["wrap_help", "cargo", "derive", "env"] }
color-eyre = { version = "0.6", features = ["issue-url"] }
dirs = "4"
humantime = "~2.1.0"
serde = { version = "1", features = ["derive"] }
toml = "0.5"
tonic = { version = "0.8", features = ["transport"] }
tracing = "0.1"
tracing-journald = "0.3"
tracing-subscriber = { version = "0.3", features = ["env-filter"] }
