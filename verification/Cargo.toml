[package]
name = "crux_core"
version = "0.1.0"
edition = "2021"
publish = false

[dependencies]
crossbeam-channel = "*"
lsp-types = "*"
serde = { version = "*", features = ["derive"] }
