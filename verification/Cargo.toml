[package]
name = "syntari_desktop_lib"
version = "0.1.0"
edition = "2021"
publish = false

[dependencies]
regex = "=1.13.1"
string-interner = "=0.20.0"
uuid = { version = "=1.29.0", features = ["v4"] }
serde = { version = "=1.0.229", features = ["derive"] }
serde_json = "=1.0.154"
ignore = "=0.4.33"
notify = "=8.2.1"
notify-debouncer-mini = "=0.7.0"
portable-pty = "=0.9.0"
tokio = { version = "=1.54.1", features = ["full"] }
tracing = "=0.1.44"
dirs = "=7.0.0"
nix = { version = "=0.31.3", features = ["signal"] }
anyhow = "=1.0.104"
git2 = { version = "*", default-features = false }
mimalloc = { version = "*", default-features = false }
