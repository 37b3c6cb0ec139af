[package]
name = "proxydetox"
version = "0.1.0"
edition = "2021"
publish = false

[dependencies]
base64 = "0.13"
gethostname = "0.2"
http = "0.2"
hyper = { version = "0.14", features = ["client", "server", "http1", "tcp", "runtime"] }
libgssapi = "0.4"
parking_lot = "0.12"
thiserror = "1"
tokio = { version = "1", features = ["rt-multi-thread", "net", "io-util"] }
tracing = "0.1"
tracing-attributes = "0.1"
tracing-futures = "0.2"
