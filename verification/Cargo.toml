[package]
name = "router_core"
version = "0.1.0"
edition = "2021"
publish = false

[dependencies]
bytes = "1"
config = { version = "0.13", default-features = false }
ring = "0.17"
serde = { version = "1", features = ["derive"] }
serde_json = "1"
thiserror = "1"
actix-web = { version = "4", default-features = false }
