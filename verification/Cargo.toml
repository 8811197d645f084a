[package]
name = "websocket_v2"
version = "0.1.0"
edition = "2021"
publish = false

[dependencies]
actix-web = { version = "4", default-features = false }
actix-ws = "*"
anyhow = "1"
async-trait = "0.1"
chrono = { version = "0.4", default-features = false, features = ["clock", "std"] }
dashmap = "*"
futures-util = { version = "0.3", features = ["sink"] }
log = "0.4"
once_cell = "1"
serde = { version = "1", features = ["derive"] }
serde_json = "1"
thiserror = "*"
tokio = { version = "1", features = ["sync", "time", "rt", "macros", "net"] }
tokio-tungstenite = "*"
