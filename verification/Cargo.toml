[package]
name = "remotelab"
version = "0.1.0"
edition = "2021"
publish = false

[dependencies]
bytes = "1"
serde = { version = "1", features = ["derive"] }
serde_json = "1"
tokio = { version = "1", features = ["net", "io-util", "sync", "time", "rt", "macros"] }
quinn = "0.11"
rustls = "0.23"
rustls-pemfile = "2"
libc = "0.2"
log = "0.4"
async-trait = "0.1"
thiserror = "1"
