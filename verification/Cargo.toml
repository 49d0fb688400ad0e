[package]
name = "lattice_bindgen"
version = "0.1.0"
edition = "2021"
publish = false

[dependencies]
heck = "0.4"
serde = { version = "1", features = ["derive"] }
serde_json = "1"
