[package]
name = "watson"
version = "0.1.0"
edition = "2021"
publish = false

[dependencies]
webassembly = "*"
serde = { version = "1", features = ["derive"] }
colored = "*"
