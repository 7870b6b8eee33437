[package]
name = "bevy_octopus"
version = "0.6.0"
edition = "2021"
publish = false

[dependencies]
bytes = "=1.12.1"
kanal = "=0.1.1"
url = "2"
bevy = { version = "=0.17.3", default-features = false, features = ["std"] }
serde = { version = "=1.0.229", features = ["derive"] }
serde_json = "=1.0.154"
bincode = "=1.3.3"
thiserror = "=2.0.21"
async-std = "=1.13.2"
futures = "=0.3.34"
async-tungstenite = { version = "=0.31.0", features = ["async-std-runtime"] }
