[package]
name = "simhub"
version = "0.1.0"
edition = "2021"
publish = false

[dependencies]
tokio = { version = "*", features = ["full"] }
hidapi = "*"
sysinfo = "*"
anyhow = "*"
thiserror = "*"
async-trait = "*"
log = "*"
pretty_env_logger = "*"
