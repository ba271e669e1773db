[package]
name = "wireguard_tunnel"
version = "0.1.0"
edition = "2021"
publish = false

[dependencies]
env_logger = "=0.11.11"
jni = "=0.21.1"
log = "=0.4.34"
once_cell = "=1.21.4"
parking_lot = "=0.12.5"
serde = { version = "=1.0.229", features = ["derive"] }
serde_json = "=1.0.151"
thiserror = "=2.0.21"
tokio = { version = "=1.53.2", features = ["full"] }
warp-wireguard-gen = { version = "=0.1.6", features = ["serde"] }
wireguard-netstack = "=0.3.0"
