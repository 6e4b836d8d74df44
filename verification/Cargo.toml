[package]
name = "wits"
version = "0.1.0"
edition = "2021"
publish = false

[dependencies]
tantivy = "*"
clap = { version = "*", features = ["derive"] }
