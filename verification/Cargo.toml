[package]
name = "graph_data"
version = "0.1.0"
edition = "2021"
publish = false

[dependencies]
pgp = "0.7"
semver = "1"
serde_json = "1"
reqwest = { version = "0.11", default-features = false, features = ["blocking"] }

[dev-dependencies]
rand = "0.7"
