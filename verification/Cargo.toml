[package]
name = "bootkit"
version = "0.1.0"
edition = "2021"
publish = false

[dependencies]
regex = "1"
tracing = "0.1"
tracing-subscriber = "0.3"
log = "0.4"
clap = { version = "4", features = ["derive"] }
serde = { version = "1", features = ["derive"] }
serde_json = "1"
tokio = { version = "1", features = ["rt-multi-thread", "macros", "time"] }
zbus = { version = "5", default-features = false, features = ["tokio"] }
sqlx = { version = "0.8", default-features = false, features = ["runtime-tokio", "sqlite"] }
inotify = "0.11"
event-listener = "5"
