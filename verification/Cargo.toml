[package]
name = "vk_relay"
version = "0.1.0"
edition = "2021"
publish = false

[dependencies]
serde_json = "=1.0.151"
reqwest = { version = "=0.13.5", default-features = false, features = ["query"] }
tokio = { version = "=1.53.2", features = ["rt-multi-thread", "macros", "sync"] }
tokio-stream = "=0.1.19"
tonic = "=0.14.6"
tonic-prost = "*"
prost = "=0.14.4"
dotenvy = "=0.15.7"
