[package]
name = "zklogin_verifier"
version = "0.1.0"
edition = "2021"
publish = false

[dependencies]
axum = "=0.6.20"
bcs = "=0.1.6"
fastcrypto = "=0.1.11"
fastcrypto-zkp = "=0.1.4"
im = "=15.1.0"
parking_lot = "=0.12.5"
reqwest = { version = "0.12", default-features = false, features = ["json", "rustls-tls"] }
serde = { version = "=1.0.229", features = ["derive"] }
serde_json = "=1.0.154"
tokio = { version = "=1.54.1", features = ["full"] }
tracing = "=0.1.44"
tracing-subscriber = "=0.3.23"
