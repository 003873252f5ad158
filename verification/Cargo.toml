[package]
name = "warpgate_tunnel"
version = "0.1.0"
edition = "2021"
publish = false

[dependencies]
amq-protocol = { version = "=10.6.3", default-features = false }
cookie-factory = "=0.3.3"
humantime = "=2.4.0"
url = "=2.5.8"
uuid = { version = "=1.29.0", features = ["v4"] }
tokio = { version = "=1.54.1", features = ["net", "io-util", "time", "macros", "rt", "sync"] }
anyhow = "=1.0.104"
bytes = "=1.12.1"
futures = "=0.3.34"
reqwest = { version = "=0.13.5", default-features = false, features = ["json"] }
reqwest-websocket = "=0.6.0"
serde = { version = "=1.0.229", features = ["derive"] }
thiserror = "=2.0.21"
tracing = "=0.1.44"
