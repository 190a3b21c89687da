[package]
name = "insta_fetch"
version = "0.1.0"
edition = "2021"
publish = false

[dependencies]
rand = "=0.8.8"
chrono = "=0.4.45"
serde = { version = "1", features = ["derive"] }
serde_json = "1"
tokio = { version = "1", features = ["full"] }
reqwest = { version = "0.11", default-features = false, features = ["json", "stream", "blocking", "rustls-tls"] }
axum = "0.6"
http = "0.2"
tower = { version = "0.4", features = ["util", "timeout"] }
tower-http = { version = "0.4", features = ["cors", "trace", "timeout"] }
fantoccini = { version = "0.19", default-features = false, features = ["rustls-tls"] }
futures = "0.3"
futures-util = "0.3"
headless_chrome = "0.9.0"
rusqlite = { version = "0.31", features = ["bundled"] }
tracing = "0.1"
tracing-subscriber = "0.3"
