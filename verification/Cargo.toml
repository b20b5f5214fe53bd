[package]
name = "doc_store"
version = "0.1.0"
edition = "2021"
publish = false

[dependencies]
log = "0.4"
rand = "0.8"
rocket = "0.5"
rocket_okapi = { version = "*", features = ["swagger", "rapidoc"] }
schemars = "0.8"
serde = { version = "1", features = ["derive"] }
