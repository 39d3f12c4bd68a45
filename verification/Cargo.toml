[package]
name = "astria_core"
version = "0.1.0"
edition = "2021"
publish = false

[dependencies]
pbjson = "0.7"
pbjson-types = "0.7"
prost = "0.13"
serde = { version = "1", features = ["derive"] }
serde_json = "1"
