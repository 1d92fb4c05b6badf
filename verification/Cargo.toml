[package]
name = "si_pkg"
version = "0.1.0"
edition = "2021"
publish = false

[dependencies]
axum = { version = "0.6", default-features = false, features = ["json"] }
blake3 = { version = "1", default-features = false, features = ["pure"] }
petgraph = { version = "0.6", default-features = false }
serde = { version = "1", features = ["derive"] }
serde_json = "1"
url = "2"
