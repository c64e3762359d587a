[package]
name = "memcards"
version = "0.1.0"
edition = "2021"
publish = false

[dependencies]
anyhow = "=1.0.104"
axum = "=0.8.9"
axum-extra = { version = "=0.12.6", features = ["cookie-signed"] }
chrono = { version = "=0.4.45", features = ["serde"] }
crossbeam-queue = "=0.3.14"
dashmap = "=6.2.1"
fsrs = "=6.6.2"
futures-util = "=0.3.34"
jsonwebtoken = { version = "=11.1.0", features = ["use_pem", "rust_crypto"] }
reqwest = { version = "=0.13.5", default-features = false, features = ["json"] }
secrecy = "=0.10.3"
serde = { version = "=1.0.229", features = ["derive"] }
serde_json = "=1.0.151"
sha2 = "=0.10.9"
sqlx = { version = "=0.9.0", default-features = false, features = ["postgres", "runtime-tokio", "chrono"] }
subtle = "=2.6.1"
time = "=0.3.55"
tokio = { version = "=1.53.2", features = ["rt-multi-thread", "macros", "net", "sync", "time"] }
tokio-tungstenite = "=0.30.0"
tracing = "=0.1.44"
tracing-subscriber = { version = "=0.3.23", features = ["env-filter"] }

[dev-dependencies]
hex = "=0.4.3"
