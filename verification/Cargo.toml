[package]
name = "wallcove"
version = "0.1.0"
edition = "2021"
publish = false

[dependencies]
enquote = "1"
serde = { version = "1", features = ["derive"] }
serde_json = "1"
thiserror = "*"
anyhow = "1"
tokio = { version = "1", features = ["rt-multi-thread", "macros", "net", "io-util", "signal", "time", "sync"] }
tokio-util = "*"
tracing = "*"
tracing-subscriber = { version = "*", features = ["env-filter"] }
wallpaper-ng = "*"
wayland-client = "*"
wayland-protocols-wlr = { version = "*", features = ["client"] }
