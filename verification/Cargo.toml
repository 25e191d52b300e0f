[package]
name = "lambdo"
version = "0.1.0"
edition = "2021"
publish = false

[dependencies]
cidr = "*"
uuid = { version = "*", features = ["v4"] }
serde = { version = "*", features = ["derive"] }
serde_yaml = "*"
serde_json = "*"
tokio = { version = "*", features = ["full"] }
tokio-stream = "*"
tonic = "*"
prost = "*"
actix-web = "*"
actix-files = "*"
clap = { version = "*", features = ["derive"] }
anyhow = "*"
log = "*"
env_logger = "*"
async-trait = "*"
network_bridge = "*"
network-interface = "*"
default-net = "*"
