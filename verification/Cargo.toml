[package]
name = "connexa-server"
version = "0.1.0"
edition = "2021"
publish = false

[dependencies]
x25519-dalek = { version = "=2.0.1", features = ["static_secrets"] }
sha2 = "=0.10.9"
hkdf = "=0.12.4"
chacha20poly1305 = "=0.10.1"
rand_core = { version = "=0.6.4", features = ["getrandom"] }
uuid = { version = "=1.29.0", features = ["v4"] }
chrono = "=0.4.45"
libp2p = { version = "=0.55.0", default-features = false, features = ["gossipsub", "kad", "macros", "noise", "tcp", "tokio", "yamux"] }
tokio = { version = "=1.54.1", features = ["rt-multi-thread", "macros", "sync", "time", "net"] }
serde = { version = "=1.0.229", features = ["derive"] }
serde_json = "=1.0.154"
reqwest = { version = "=0.12.28", default-features = false, features = ["json"] }
axum = { version = "0.7", features = ["ws"] }
jsonwebtoken = "9"
thiserror = "1"
rand = "0.8"
futures = "0.3"
