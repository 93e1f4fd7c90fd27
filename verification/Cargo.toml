[package]
name = "serial_bridge"
version = "0.1.0"
edition = "2021"
publish = false

[dependencies]
anyhow = "1"
argh = "0.1"
libc = "0.2"
log = "0.4"
pretty_env_logger = "0.5"
tokio = { version = "1", features = ["io-util", "macros", "net", "rt", "time"] }
tokio-serial = { version = "5.4", default-features = false }
