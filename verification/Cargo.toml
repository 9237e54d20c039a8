[package]
name = "fsd28"
version = "0.1.0"
edition = "2021"
publish = false

[dependencies]
serde = { version = "*", features = ["derive"] }
serde_json = "*"
dialoguer = "*"
lopdf = "*"
colored = "*"
