[package]
name = "dshare"
version = "0.1.0"
edition = "2021"
publish = false

[dependencies]
anyhow = "1"
arboard = { version = "3", default-features = false }
async-trait = "0.1"
bincode = "1"
bytes = "1"
clap = { version = "4", features = ["derive"] }
eframe = { version = "0.29", default-features = false, features = ["glow", "x11", "default_fonts"] }
evdev = "0.12"
futures = "0.3"
serde = { version = "1", features = ["derive"] }
thiserror = "1"
tokio = { version = "1", features = ["rt-multi-thread", "net", "sync", "time"] }
tokio-util = { version = "0.7", features = ["codec"] }
toml = "0.8"
tracing = "0.1"
tracing-subscriber = { version = "0.3", features = ["env-filter", "fmt"] }
uuid = { version = "1", features = ["v4", "serde"] }
