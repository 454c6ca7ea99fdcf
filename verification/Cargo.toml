[package]
name = "auth_bridge"
version = "0.1.0"
edition = "2021"
publish = false

[dependencies]
serde_json = "1"
actix-web = { version = "4", default-features = false }
trust-dns-resolver = "0.23"
once_cell = "1"
tokio = { version = "1", features = ["rt-multi-thread", "macros", "sync"] }
