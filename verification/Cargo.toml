[package]
name = "latosol"
version = "0.1.0"
edition = "2021"
publish = false

[dependencies]
anyhow = "1"
dotenvy = "0.15"
env_logger = "0.10"
log = "0.4"
rustls = "0.21"
rustls-pemfile = "1"
tokio = { version = "1", features = ["net", "rt-multi-thread", "macros", "io-util"] }
tokio-rustls = "0.24"
