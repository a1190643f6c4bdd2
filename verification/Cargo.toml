[package]
name = "cert_status"
version = "0.1.0"
edition = "2021"
publish = false

[dependencies]
chrono = "=0.4.45"
mysql = "=28.0.3"
ocsp = "=0.4.0"
tokio = { version = "=1.53.2", features = ["rt-multi-thread"] }
tokio-postgres = { version = "=0.7.18", features = ["with-chrono-0_4"] }
zeroize = "=1.9.0"
