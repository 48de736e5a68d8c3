[package]
name = "airio"
version = "0.1.0"
edition = "2021"
publish = false

[dependencies]
futures = "=0.3.34"
futures-timer = "=3.0.4"
sha2 = "=0.10.9"
x509-parser = "=0.18.1"
tokio = { version = "=1.54.1", features = ["net", "rt"] }
socket2 = "=0.6.5"
quinn = { version = "=0.11.12", default-features = false, features = ["runtime-tokio", "rustls-ring"] }
async-tungstenite = { version = "=0.35.0", features = ["tokio-runtime"] }
tungstenite = "=0.30.0"
thiserror = "=2.0.21"
