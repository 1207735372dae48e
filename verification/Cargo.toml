[package]
name = "tonic_h3"
version = "0.1.0"
edition = "2021"
publish = false

[dependencies]
h3 = { version = "=0.0.8", features = ["i-implement-a-third-party-backend-and-opt-into-breaking-changes"] }
h3-quinn = "=0.0.10"
quinn = { version = "=0.11.12", default-features = false, features = ["runtime-tokio", "rustls-ring", "log"] }
rustls = { version = "=0.23.46", default-features = false, features = ["ring", "std", "logging", "tls12"] }
gm-quic = { version = "=0.3.0", default-features = false }
h3-shim = { version = "=0.3.0", default-features = false }
http = "=1.5.0"
http-body-util = "=0.1.5"
hyper = { version = "=1.12.0", features = ["client", "server", "http1"] }
hyper-util = { version = "=0.1.21", features = ["service", "tokio"] }
tower = { version = "=0.5.3", features = ["buffer", "util"] }
tokio = { version = "=1.54.1", features = ["rt-multi-thread", "macros", "net", "sync", "time"] }
tokio-util = "=0.7.20"
futures = "=0.3.34"
tracing = "=0.1.44"
tracing-subscriber = { version = "=0.3.23", features = ["env-filter"] }
tonic = "=0.14.9"
axum = "=0.8.9"
rcgen = { version = "=0.14.10", default-features = false, features = ["ring", "pem"] }
hdrhistogram = "=7.6.0"
serde_json = "=1.0.154"
