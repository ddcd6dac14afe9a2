[package]
name = "stubdns"
version = "0.1.0"
edition = "2021"
publish = false

[dependencies]
futures = "0.3"
rustls = { version = "0.23", default-features = false, features = ["ring", "std", "logging", "tls12"] }
rustls-native-certs = "0.7"
serde = { version = "1", features = ["derive"] }
serde_json = "1"
tokio = { version = "1", features = ["full"] }
tokio-rustls = { version = "0.26", default-features = false, features = ["ring", "logging", "tls12"] }
tracing = "0.1"
tracing-subscriber = "0.3"
