[package]
name = "crdb-harness"
version = "0.1.0"
edition = "2021"
publish = false

[dependencies]
anyhow = "1"
camino = "1"
camino-tempfile = "1"
flate2 = "1"
libc = "0.2"
reqwest = { version = "0.12", default-features = false, features = ["rustls-tls"] }
sha2 = "0.10"
tar = "0.4"
thiserror = "1"
tokio = { version = "1", features = ["full"] }
tokio-postgres = "0.7"
