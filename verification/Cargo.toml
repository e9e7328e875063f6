[package]
name = "dekit"
version = "0.1.0"
edition = "2021"
publish = false

[dependencies]
anyhow = "1"
clap = { version = "4", features = ["cargo"] }
indexmap = { version = "2", features = ["serde"] }
log = "0.4"
rquickjs = { version = "*", features = ["futures", "macro"] }
serde = { version = "1", features = ["derive"] }
serde_json = "1"
tokio = { version = "1", features = ["rt", "rt-multi-thread", "macros", "sync", "time"] }
