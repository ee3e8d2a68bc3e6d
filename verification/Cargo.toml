[package]
name = "hash_lsp"
version = "0.1.0"
edition = "2021"
publish = false

[dependencies]
futures = "*"
log = "*"
simple_logger = "*"
tokio = { version = "*", features = ["io-std", "rt-multi-thread", "macros"] }
tower = "*"
tower-lsp = "*"
tower-service = "*"
