[package]
name = "aries_vcx"
version = "0.1.0"
edition = "2021"
publish = false

[dependencies]
serde = { version = "1", features = ["derive"] }
serde_json = "1"
chrono = "0.4"
log = "0.4"
env_logger = "0.10"
libc = "0.2"
openssl = "0.10"
uuid = { version = "1", features = ["v4"] }
indy-sys = "*"
android_logger = "*"

[dev-dependencies]
base64 = "0.13"
