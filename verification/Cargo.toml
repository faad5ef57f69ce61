[package]
name = "fugle"
version = "0.3.8"
edition = "2021"
publish = false

[dependencies]
futures-util = "0.3"
log = "0.4"
pretty_env_logger = "0.4"
reqwest = { version = "0.11", features = ["json"] }
rust_decimal = { version = "1", features = ["serde-float"] }
serde = { version = "1", features = ["derive"] }
serde_json = "1"
time = { version = "0.3", features = ["serde", "parsing", "formatting"] }
tokio = { version = "1", features = ["rt", "rt-multi-thread", "macros", "sync", "time"] }
tokio-tungstenite = { version = "0.17", features = ["native-tls"] }
tungstenite = { version = "0.17", features = ["native-tls"] }
ureq = { version = "2", features = ["json"] }
