[package]
name = "rusty_bridge"
version = "0.1.0"
edition = "2021"
publish = false

[dependencies]
evalexpr = "11"
serde = { version = "1", features = ["derive"] }
serde_json = "1"
tungstenite = "*"
