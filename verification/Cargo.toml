[package]
name = "unionc-agent"
version = "0.3.2"
edition = "2021"
publish = false

[dependencies]
anyhow = "1"
chrono = { version = "0.4", default-features = false, features = ["clock", "std", "serde"] }
nvml-wrapper = "0.10"
rand = "0.9"
reqwest = { version = "0.12", default-features = false, features = ["blocking", "json"] }
serde = { version = "1", features = ["derive"] }
serde_json = "1"
sha1 = "0.10"
sysinfo = "0.36"
tokio = { version = "1", features = ["rt-multi-thread", "macros", "time", "sync", "signal", "io-util", "net"] }
tracing = "0.1"
tracing-subscriber = { version = "0.3", features = ["env-filter", "json"] }
uuid = { version = "1", features = ["v4", "serde"] }
