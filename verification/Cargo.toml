[package]
name = "remotemic"
version = "0.1.0"
edition = "2021"
publish = false

[dependencies]
async-trait = "=0.1.92"
axum = { version = "=0.8.9", features = ["ws"] }
axum-server = { version = "=0.8.0", features = ["tls-rustls"] }
base64 = "=0.23.1"
futures-util = { version = "=0.3.34", features = ["sink"] }
nix = { version = "=0.31.3", features = ["user"] }
opus-rs = "=0.1.40"
rand = "=0.10.3"
rcgen = { version = "=0.14.10", default-features = false, features = ["crypto", "pem", "ring", "x509-parser"] }
rtc = "=0.21.1"
serde = { version = "=1.0.229", features = ["derive"] }
serde_json = "=1.0.154"
tokio = { version = "=1.54.1", features = ["full"] }
tracing = "=0.1.44"
tracing-subscriber = "=0.3.23"
webrtc = "=0.21.1"
