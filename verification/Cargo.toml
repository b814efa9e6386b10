[package]
name = "dji_live_bridge"
version = "0.1.0"
edition = "2021"
publish = false

[dependencies]
url = "2"
sha2 = "0.10"
base64 = "0.22"
time = { version = "0.3", features = ["parsing"] }
serde = { version = "1", features = ["derive"] }
serde_json = "1"
reqwest = { version = "0.12", default-features = false, features = ["json"] }
tokio = { version = "1", features = ["full"] }
keyring = "3"
nix = { version = "0.29", features = ["signal"] }
uuid = { version = "1", features = ["v4"] }
thiserror = "2"
tracing = "0.1"
tracing-subscriber = { version = "0.3", features = ["json", "env-filter"] }
tracing-appender = "0.2"
dirs = "6"
futures-util = { version = "0.3", features = ["sink"] }
tokio-tungstenite = "0.26"
