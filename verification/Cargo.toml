[package]
name = "ratatai"
version = "0.1.0"
edition = "2021"
publish = false

[dependencies]
serde_json = "*"
chrono = "*"
regex = "*"
reqwest = { version = "*", default-features = false, features = ["blocking"] }
tokio = { version = "*", features = ["rt-multi-thread", "macros", "sync", "time", "process", "fs", "io-util"] }
crossterm = "*"
ratatui = "*"
anyhow = "*"
tempfile = "*"
dotenvy = "*"
google-ai-rs = "*"
