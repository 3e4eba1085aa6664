[package]
name = "corepc-types"
version = "0.1.0"
edition = "2021"
publish = false

[dependencies]
bitcoin = { version = "0.32", features = ["serde", "base64"] }
serde = { version = "1", features = ["derive"] }
