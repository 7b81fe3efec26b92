[package]
name = "sway_lsp"
version = "0.1.0"
edition = "2021"
publish = false

[dependencies]
lsp-types = "0.94"
tokio = { version = "1", features = ["sync"] }
