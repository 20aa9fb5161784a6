[package]
name = "lobby_server"
version = "0.1.0"
edition = "2021"
publish = false

[dependencies]
env_logger = "0.10"
futures-util = { version = "0.3", features = ["sink"] }
log = "0.4"
regex = "1"
serde = { version = "1", features = ["derive"] }
serde_json = "1"
serde_yaml = "0.9"
tokio = { version = "1", features = ["macros", "rt-multi-thread", "net"] }
tokio-tungstenite = "0.21"
tungstenite = "0.21"
