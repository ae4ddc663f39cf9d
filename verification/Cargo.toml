[package]
name = "form_state"
version = "0.1.0"
edition = "2021"
publish = false

[dependencies]
alloy-primitives = { version = "0.8", features = ["k256"] }
axum = "0.7"
base64 = "0.22"
bincode = "1"
chrono = "0.4"
crdts = "7"
futures = "0.3"
hex = "0.4"
jsonwebtoken = "9"
k256 = { version = "0.13", features = ["ecdsa"] }
lazy_static = "1"
log = "0.4"
once_cell = "1"
rand = "0.8"
redb = "2"
reqwest = { version = "0.12", default-features = false, features = ["json", "rustls-tls", "stream"] }
serde = { version = "1", features = ["derive"] }
serde_json = "1"
sha2 = "0.10"
thiserror = "1"
tiny-keccak = { version = "2", features = ["sha3"] }
tokio = { version = "1", features = ["full"] }
tokio-stream = "0.1"
url = "2"
uuid = { version = "1", features = ["v4"] }
