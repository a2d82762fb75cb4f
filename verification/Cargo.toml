[package]
name = "node_resolve"
version = "0.1.0"
edition = "2021"
publish = false

[dependencies]
log = "0.4"
reqwest = { version = "0.9", features = ["hyper-011"] }
semver = "0.9"
serde = { version = "1", features = ["derive"] }
serde_json = "1"
tempfile = "3"
