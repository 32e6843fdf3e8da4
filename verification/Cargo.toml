[package]
name = "tmi"
version = "0.1.0"
edition = "2021"
publish = false

[dependencies]
chrono = { version = "0.4", default-features = false, features = ["std", "clock"] }
smallvec = "1"
rand = "0.8"
serde = { version = "1", features = ["derive"] }
tokio = { version = "1", features = ["full"] }
tokio-rustls = "0.24"
rustls-native-certs = "0.6"
futures-util = "0.3"
tokio-stream = { version = "0.1", features = ["io-util"] }

[dev-dependencies]
serde_json = "1"
