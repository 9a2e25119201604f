[package]
name = "gitpane"
version = "0.1.0"
edition = "2021"
publish = false

[dependencies]
arboard = { version = "3", default-features = false }
color-eyre = "0.6"
crossterm = "0.29"
git2 = { version = "0.20", default-features = false }
ratatui = "0.30"
tokio = { version = "1", features = ["rt-multi-thread", "sync", "time", "macros"] }
tracing = "0.1"
walkdir = "2"
