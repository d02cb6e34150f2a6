[package]
name = "vibe_kanban"
version = "0.1.0"
edition = "2021"
publish = false

[dependencies]
serde = { version = "=1.0.229", features = ["derive"] }
serde_json = "=1.0.154"
chrono = { version = "=0.4.45", default-features = false, features = ["std", "clock"] }
uuid = { version = "=1.29.0", features = ["v4"] }
strip-ansi-escapes = "=0.2.1"
tokio = { version = "=1.54.1", features = ["fs", "rt", "macros"] }
dirs = "=6.0.0"
which = "*"
