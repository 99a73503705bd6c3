[package]
name = "locaryn_plugin_ssh"
version = "0.1.0"
edition = "2021"
publish = false

[dependencies]
zeroize = "1"
russh = "*"
tokio = { version = "1", features = ["full"] }
serde = { version = "1", features = ["derive"] }
serde_json = "1"
anyhow = "1"
