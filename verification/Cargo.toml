[package]
name = "actix_tls"
version = "0.1.0"
edition = "2021"
publish = false

[dependencies]
actix-rt = { version = "=2.15.0", default-features = false, features = ["net"] }
actix-service = "=2.0.3"
actix-utils = "=3.0.2"
futures-core = { version = "=0.3.34", default-features = false, features = ["alloc"] }
tokio-rustls = "=0.24.1"
tracing = { version = "=0.1.44", default-features = false, features = ["log"] }
webpki-roots = "=0.25.4"

[dev-dependencies]
rcgen = "=0.12.1"
tokio = { version = "=1.54.1", features = ["rt", "io-util"] }
