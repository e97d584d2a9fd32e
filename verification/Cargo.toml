[package]
name = "reciprocity"
version = "0.1.0"
edition = "2021"
publish = false

[dependencies]
arraydeque = "=0.4.5"
futures = "=0.3.34"
lavalink-rs = { version = "=0.8.0", features = ["rustls", "serenity"] }
log = "=0.4.34"
serenity = "=0.10.10"
songbird = { version = "=0.1.8", default-features = false, features = ["serenity-rustls", "gateway"] }
thiserror = "=1.0.69"
tokio = { version = "=1.54.1", features = ["full"] }
tokio-stream = "=0.1.19"
tokio-tungstenite = "=0.14.0"
