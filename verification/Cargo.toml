[package]
name = "matryx_repository"
version = "0.1.0"
edition = "2021"
publish = false

[dependencies]
sha2 = "0.10"
base64 = "0.22"
image = { version = "0.25", default-features = false, features = ["jpeg", "png", "gif", "webp"] }
uuid = { version = "1", features = ["v4"] }
chrono = { version = "0.4", features = ["serde"] }
serde = { version = "1", features = ["derive"] }
serde_json = "1"
thiserror = "2"
tokio = { version = "1", features = ["sync", "rt", "macros", "time"] }
futures = "0.3"
futures-util = "0.3"
async-stream = "0.3"
moka = { version = "0.12", features = ["future"] }
sysinfo = "0.32"
tracing = "0.1"
