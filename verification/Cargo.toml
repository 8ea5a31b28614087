[package]
name = "eremote"
version = "0.1.0"
edition = "2021"
publish = false

[dependencies]
anyhow = "1"
argon2 = "0.5"
bytes = "1"
clap = { version = "4", features = ["derive", "env"] }
dashmap = "5"
dirs = "5"
futures-util = { version = "0.3", features = ["sink"] }
hex = "0.4"
native-tls = "0.2"
prost = "0.12"
rand = "0.8"
serde = { version = "1", features = ["derive"] }
serde_json = "1"
sha2 = "0.10"
tokio = { version = "1", features = ["full"] }
tokio-native-tls = "0.3"
tokio-tungstenite = "0.21"
tracing = "0.1"
tracing-subscriber = { version = "0.3", features = ["env-filter"] }
url = "2"
uuid = { version = "1", features = ["v4"] }
