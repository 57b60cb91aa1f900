[package]
name = "grpc_performance_rs"
version = "0.1.0"
edition = "2021"
publish = false

[dependencies]
ring = "0.17"
rsa = "0.9"
tokio = { version = "1", features = ["full"] }
tokio-vsock = "*"
tonic = "0.12"
prost = "0.13"
hyper-util = "0.1"
tower = "0.4"
http = "1"
serde = { version = "1", features = ["derive"] }
toml = "0.8"
clap = { version = "4", features = ["derive"] }
anyhow = "1"
thiserror = "1"
log = "0.4"
env_logger = "0.11"
uuid = { version = "1", features = ["v4"] }
num_cpus = "1"
sysinfo = "*"
