[package]
name = "gadu"
version = "0.1.0"
edition = "2021"
publish = false

[dependencies]
crossbeam = "0.8"
crossbeam-channel = "0.5"
hashbrown = "0.1"
log = "0.4"
mio = "0.6"
mio-uds = "0.6"
openssl = "0.10"
parking_lot = "0.12"
serde = { version = "1", features = ["derive"] }
serde_derive = "1"
serde_json = "1"
url = "2"
