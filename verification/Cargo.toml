[package]
name = "exec_gateway"
version = "0.1.0"
edition = "2021"
publish = false

[dependencies]
aes-gcm = "=0.11.1"
anyhow = "=1.0.104"
base64 = "=0.23.1"
chrono = "=0.4.45"
hex = "=0.4.3"
hmac = "=0.13.0"
rand = "=0.10.3"
redis = { version = "=1.7.1", default-features = false, features = ["aio", "tokio-comp", "connection-manager", "streams"] }
reqwest = { version = "=0.13.5", default-features = false }
serde = { version = "=1.0.229", features = ["derive"] }
serde_json = "=1.0.151"
sha2 = "=0.11.0"
tokio = { version = "=1.53.2", features = ["macros", "rt-multi-thread", "time"] }
tracing = "=0.1.44"
tracing-subscriber = "=0.3.23"
urlencoding = "=2.1.3"
uuid = { version = "=1.27.0", features = ["v4"] }
