[package]
name = "backend"
version = "0.1.0"
edition = "2021"
publish = false

[dependencies]
chrono = "=0.4.45"
rand = "=0.8.8"
tokio = { version = "=1.54.1", features = ["full"] }
actix-web = "=4.18.1"
serde = { version = "=1.0.229", features = ["derive"] }
serde_json = "=1.0.154"
thiserror = "=1.0.69"
zbus = "=5.19.0"
zvariant = "=5.15.1"
wifi-ctrl = "=0.2.5"
