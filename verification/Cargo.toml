[package]
name = "sui_wire"
version = "0.1.0"
edition = "2021"
publish = false

[dependencies]
anyhow = "1"
fastcrypto = "*"
futures = "0.3"
move-core-types = "*"
multiaddr = "0.13"
roaring = "0.10"
serde = "1"
serde_with = "2"
tokio = { version = "1", features = ["net", "sync"] }
tokio-stream = { version = "0.1", features = ["net"] }
tonic = "0.8"
tonic-health = "0.7"
tower = { version = "0.4", features = ["limit", "load-shed", "util"] }
