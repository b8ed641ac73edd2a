[package]
name = "spotipi"
version = "0.1.0"
edition = "2021"
publish = false

[dependencies]
aes = "0.8"
hmac = "0.12"
sha1 = "0.10"
tokio = { version = "1", features = ["rt", "sync", "net", "macros", "time"] }
log = "0.4"
libmdns = "0.9"
hyper = { version = "0.14", features = ["server", "http1", "tcp"] }
futures-core = "0.3"
