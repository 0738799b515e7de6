[package]
name = "kcnss"
version = "0.1.0"
edition = "2021"
publish = false

[dependencies]
serde_json = "=1.0.151"
serde = { version = "*", features = ["derive"] }
toml = "*"
reqwest = { version = "=0.13.5", default-features = false, features = ["blocking", "form"] }
log = "*"
env_logger = "*"
libc = "*"
libnss = "=0.9.0"
