[package]
name = "client_tls"
version = "0.1.0"
edition = "2021"
publish = false

[dependencies]
http = "*"
tokio-rustls = { version = "*", default-features = false, features = ["ring"] }
rustls-pemfile = "*"

[dev-dependencies]
webpki-roots = "*"
