[package]
name = "swt2"
version = "0.1.0"
edition = "2021"
publish = false

[dependencies]
uuid = { version = "=1.29.1", features = ["v4"] }
chrono = "=0.4.45"
serde = { version = "=1.0.229", features = ["derive"] }
serde_json = "=1.0.154"
serde_yaml = "=0.9.34"
rusqlite = { version = "=0.41.1", features = ["bundled"] }
symphonia = { version = "=0.5.5", features = ["all"] }
rubato = "=0.16.2"
reqwest = { version = "=0.12.28", default-features = false, features = ["json", "stream", "rustls-tls"] }
futures-util = "=0.3.34"
axum = "=0.8.9"
tokio = { version = "=1.54.1", features = ["net", "rt-multi-thread", "macros"] }
tower-http = { version = "=0.6.11", features = ["cors"] }
