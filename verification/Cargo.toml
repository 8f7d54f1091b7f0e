[package]
name = "anidb_udp"
version = "0.1.0"
edition = "2021"
publish = false

[dependencies]
hex = "=0.4.3"
serde_urlencoded = "=0.7.1"
md4 = "=0.10.2"
crc = "3"
tokio = { version = "=1.53.2", features = ["rt", "net", "sync", "time", "macros"] }
async-trait = "=0.1.92"
