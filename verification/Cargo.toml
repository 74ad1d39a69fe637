[package]
name = "clash-android-ffi"
version = "0.1.0"
edition = "2021"
publish = false

[dependencies]
bytes = "1"
eyre = "0.6"
http-body-util = "0.1"
hyper = { version = "1", features = ["client", "http1"] }
hyper-http-proxy = "1"
hyper-rustls = { version = "0.27", default-features = false, features = ["http1", "ring", "webpki-roots"] }
hyper-util = { version = "0.1", features = ["client-legacy", "http1", "tokio"] }
hyperlocal = "0.9"
jni = "0.21"
paranoid-android = "*"
serde = { version = "1", features = ["derive"] }
serde_json = "1"
thiserror = "*"
tokio = { version = "1", features = ["rt-multi-thread", "fs", "sync", "net"] }
tracing = "0.1"
tracing-subscriber = "0.3"
uniffi = { version = "*", features = ["tokio"] }
urlencoding = "2"
