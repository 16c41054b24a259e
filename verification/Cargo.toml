[package]
name = "instrument"
version = "0.1.0"
edition = "2021"
publish = false

[dependencies]
hmac = "0.12"
sha2 = "0.10"
serde = { version = "1", features = ["derive"] }
serde_json = "1"
rmp-serde = "1"
actix-web = "4"
actix-ws = "0.3"
dashmap = "5"
chrono = "0.4"
tokio = { version = "1", features = ["sync", "macros", "rt-multi-thread"] }
mongodb = "2"
futures = "0.3"
