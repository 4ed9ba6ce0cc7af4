[package]
name = "dc"
version = "0.1.0"
edition = "2021"
publish = false

[dependencies]
anyhow = "*"
async-trait = "*"
base64 = "*"
bytes = "*"
colored = "*"
ctrlc = "*"
dialoguer = "*"
futures = "*"
rand = "*"
rtc = "*"
serde_json = "*"
tokio = { version = "*", features = ["full"] }
webrtc = "*"
