[package]
name = "revibe"
version = "0.1.0"
edition = "2021"
publish = false

[dependencies]
anyhow = "1"
async-trait = "0.1"
crossterm = "0.28"
futures = "0.3"
pulldown-cmark = { version = "0.13", default-features = false }
ratatui = "0.29"
reqwest = { version = "0.12", default-features = false, features = ["json", "stream"] }
serde = { version = "1", features = ["derive"] }
serde_json = "1"
tokio = { version = "1", features = ["rt", "macros", "sync", "time", "process"] }
tracing = "0.1"
