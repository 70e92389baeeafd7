[package]
name = "host_router"
version = "0.1.0"
edition = "2021"
publish = false

[dependencies]
anyhow = "1"
chrono = "0.4"
fastly = "0.9"
log = "0.4"
log-fastly = "0.9"
serde_json = "1"
