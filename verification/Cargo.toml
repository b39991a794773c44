[package]
name = "etas_host"
version = "0.1.0"
edition = "2021"
publish = false

[dependencies]
blake3 = "=1.8.7"
getrandom = "=0.3.4"
reqwest = { version = "0.12", default-features = false }
rusqlite = { version = "=0.41.1", features = ["bundled"] }
rustls = { version = "0.23", default-features = false, features = ["ring", "std", "tls12", "logging"] }
rustls-pki-types = "1"
serde = { version = "=1.0.229", features = ["derive"] }
serde_json = "=1.0.154"
tokio = { version = "1", features = ["net", "io-util", "sync", "time", "rt", "macros", "process"] }
tokio-rustls = { version = "0.26", default-features = false, features = ["ring", "tls12", "logging"] }
tokio-util = "0.7"
webpki-roots = "*"
