[package]
name = "dmx_adapter"
version = "0.1.0"
edition = "2021"
publish = false

[dependencies]
async-trait = "=0.1.92"
dmx = "=0.2.1"
dmx-serial = "=0.4.0"
futures = "=0.3.34"
hex_color = "=2.1.0"
log = "=0.4.34"
serde = { version = "=1.0.229", features = ["derive"] }
serde_json = "=1.0.151"
simple_logger = "=2.3.0"
sqlite = "=0.26.0"
thiserror = "=1.0.69"
tokio = { version = "=1.53.2", features = ["full"] }
tokio-tungstenite = "=0.16.1"
tungstenite = "=0.16.0"
url = "=2.2.2"
uuid = { version = "=1.27.0", features = ["v4"] }
