[package]
name = "homehelper"
version = "0.1.0"
edition = "2021"
publish = false

[dependencies]
anyhow = "*"
ciborium = "*"
clap = { version = "*", features = ["derive"] }
ctrlc = "*"
serde = { version = "*", features = ["derive"] }
serde_json = "*"
serde_repr = "*"
