[package]
name = "enclave_net"
version = "0.1.0"
edition = "2021"
publish = false

[dependencies]
tls-parser = "=0.12.2"
rand = "=0.8.8"
serde_json = "=1.0.151"
hyper = { version = "=0.14.32", features = ["full"] }
tokio = { version = "1", features = ["full"] }
tokio-rustls = { version = "=0.23.4", features = ["dangerous_configuration"] }
webpki-roots = "=0.22.6"
