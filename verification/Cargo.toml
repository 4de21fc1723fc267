[package]
name = "hoshi"
version = "0.1.0"
edition = "2021"
publish = false

[dependencies]
clap = { version = "4", features = ["cargo"] }
code_highlighter = "*"
serde = { version = "1", features = ["derive"] }
