[package]
name = "scale_bridge"
version = "0.1.0"
edition = "2021"
publish = false

[dependencies]
serde_json = "1"
serde = { version = "1", features = ["derive"] }
tokio = { version = "1", features = ["net", "io-util", "time", "sync", "macros", "rt"] }
actix-web = { version = "4", default-features = false, features = ["macros"] }
actix-ws = "0.3"
awc = { version = "3", default-features = false }
log = "0.4"
env_logger = { version = "0.11", default-features = false }
