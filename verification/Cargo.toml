[package]
name = "steward"
version = "0.1.0"
edition = "2021"
publish = false

[dependencies]
anyhow = "1"
axum = { version = "0.5", features = ["headers"] }
clap = { version = "3", features = ["derive", "env"] }
const-oid = { version = "0.9", features = ["db"] }
der = { version = "0.7", features = ["std"] }
hyper = "0.14"
mime = "0.3"
p256 = "0.13"
p384 = "0.13"
pkcs8 = "0.10"
rand_core = { version = "0.6", features = ["getrandom"] }
rustls-pemfile = "1"
sha2 = "0.10"
tokio = { version = "1", features = ["rt-multi-thread", "macros"] }
tracing = "0.1"
tracing-subscriber = "0.3"
uuid = { version = "1", features = ["v4"] }
x509-cert = "0.2"
zeroize = "1"
