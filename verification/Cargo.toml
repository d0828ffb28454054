[package]
name = "rust_pets"
version = "0.1.0"
edition = "2021"
publish = false

[dependencies]
keyring = { version = "*", default-features = false }
keyring-core = "*"
rand = "0.8"
chrono = "0.4"
serde = { version = "1", features = ["derive"] }
serde_json = "1"
egui = "0.28"
image = { version = "0.25", default-features = false, features = ["png"] }
include_dir = "0.7"
