[package]
name = "resonate"
version = "0.1.0"
edition = "2021"
publish = false

[dependencies]
async-trait = "0.1"
libsql = { version = "*", default-features = false, features = ["core"] }
parking_lot = "0.12"
serde = { version = "1", features = ["derive"] }
serde_json = "1"
tokio = { version = "1", features = ["macros", "rt", "rt-multi-thread", "sync", "time"] }
tracing = "0.1"
url = "2"
validator = { version = "*", features = ["derive"] }
