[package]
name = "stabilitypool"
version = "0.1.0"
edition = "2021"
publish = false

[dependencies]
anyhow = "1"
async-trait = "0.1"
bitcoin = { version = "0.29", features = ["rand"] }
erased-serde = "0.3"
rand = "0.8"
reqwest = { version = "0.11", default-features = false }
secp256k1-zkp = "0.7"
serde = { version = "1", features = ["derive"] }
serde_json = "1"
thiserror = "1"
time = { version = "0.3", features = ["serde"] }
tokio = { version = "1", features = ["macros", "rt-multi-thread", "time"] }
tracing = "0.1"
