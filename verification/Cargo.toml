[package]
name = "pod-os-client"
version = "0.1.0"
edition = "2021"
publish = false

[dependencies]
uuid = { version = "=1.29.0", features = ["v4"] }
tokio = { version = "=1.54.1", features = ["net", "io-util", "time", "sync", "rt", "rt-multi-thread", "macros"] }
dashmap = "=6.2.1"
once_cell = "=1.21.4"
bytes = "=1.12.1"
socket2 = { version = "=0.5.10", features = ["all"] }
serde = { version = "=1.0.229", features = ["derive"] }
serde_json = "=1.0.154"
thiserror = "=1.0.69"
tracing = "=0.1.44"
async-trait = "=0.1.92"
reqwest = { version = "0.12", default-features = false, features = ["json"] }
