[package]
name = "quic_h3"
version = "0.1.0"
edition = "2021"
publish = false

[dependencies]
bytes = "=1.12.1"
h3 = { version = "=0.0.8", features = ["i-implement-a-third-party-backend-and-opt-into-breaking-changes"] }
h3-util = "=0.0.6"
h3-shim = "=0.5.0"
dquic = "=0.5.1"
hyper = "=1.12.0"
ngnet-quic = "=0.0.1"
tokio = { version = "=1.54.1", features = ["rt-multi-thread", "macros", "time", "sync", "net"] }
tracing = "=0.1.44"
tracing-subscriber = "=0.3.23"
rustls = { version = "=0.23.46", default-features = false, features = ["ring", "std", "logging", "tls12"] }
quinn = "=0.11.12"
rcgen = "=0.14.10"
