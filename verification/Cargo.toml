[package]
name = "ctmonitor"
version = "0.1.0"
edition = "2021"
publish = false

[dependencies]
async-trait = "0.1"
base64 = "0.22"
dotenv = "0.15"
log = "0.4"
log4rs = "1"
rmp-serde = "1"
rustls = "0.23"
serde = { version = "1", features = ["derive"] }
sha1 = "0.10"
tokio = { version = "1", features = ["full"] }
tokio-rustls = "0.26"
uuid = { version = "1", features = ["v7"] }
