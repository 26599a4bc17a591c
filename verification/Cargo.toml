[package]
name = "cordis_magazines"
version = "0.1.0"
edition = "2021"
publish = false

[dependencies]
env_logger = "*"
indicatif = "*"
log = "*"
quick-xml = { version = "*", features = ["serialize"] }
reqwest = { version = "*", default-features = false, features = ["rustls-tls"] }
serde = { version = "*", features = ["derive"] }
tokio = { version = "*", features = ["rt-multi-thread", "macros", "fs", "io-util"] }
