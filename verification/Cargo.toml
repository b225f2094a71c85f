[package]
name = "silence"
version = "0.1.0"
edition = "2021"
publish = false

[dependencies]
bincode = "1.3"
chacha20poly1305 = "0.10"
clap = { version = "4", features = ["derive", "env"] }
hkdf = "0.12"
rand = "0.8"
serde = { version = "1", features = ["derive"] }
sha2 = "0.10"
tokio = { version = "1", features = ["full"] }
tracing = "0.1"
tracing-subscriber = { version = "0.3", features = ["env-filter"] }
uuid = { version = "1", features = ["v4"] }
