[package]
name = "zingo-netutils"
version = "0.1.0"
edition = "2021"
publish = false

[dependencies]
http = "1"
lightwallet-protocol = "0.3"
thiserror = "2"
tokio-stream = "0.1"
tonic = { version = "0.14", features = ["tls-webpki-roots", "tls-ring"] }
