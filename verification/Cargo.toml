[package]
name = "djrip"
version = "0.1.0"
edition = "2021"
publish = false

[dependencies]
anyhow = "*"
async-trait = "*"
clap = { version = "*", features = ["derive"] }
futures-util = "*"
log = "*"
serde = { version = "*", features = ["derive"] }
serde_with = "*"
serde_yaml = "*"
simple_logger = "*"
tokio = { version = "*", features = ["full"] }
url = "*"
