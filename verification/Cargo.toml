[package]
name = "grand_eden_launcher"
version = "1.0.0"
edition = "2021"
publish = false

[dependencies]
dirs = "=7.0.0"
serde = { version = "=1.0.229", features = ["derive"] }
serde_json = "=1.0.154"
zip = { version = "=9.2.2", default-features = false, features = ["deflate"] }
reqwest = { version = "=0.12.28", default-features = false, features = ["json", "stream", "rustls-tls"] }
tokio = { version = "=1.54.1", features = ["rt", "sync", "time"] }
futures-util = "=0.3.34"
