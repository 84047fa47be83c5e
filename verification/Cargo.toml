[package]
name = "ebook_transfer"
version = "0.1.0"
edition = "2021"
publish = false

[dependencies]
serde_json = "1"
tracing = "0.1"
