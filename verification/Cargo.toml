[package]
name = "noor_rtc"
version = "0.1.0"
edition = "2021"
publish = false

[dependencies]
bytes = "1"
serde = { version = "1", features = ["derive"] }
serde_json = "1"
str0m = "*"
tokio = { version = "1", features = ["rt", "time", "macros", "sync"] }
flume = "*"
rubato = "*"
ringbuf = "*"
opus = "*"
cpal = "*"
anyhow = "1"
thiserror = "*"
systemstat = "*"
