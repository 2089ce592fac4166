[package]
name = "sharch"
version = "0.1.0"
edition = "2021"
publish = false

[dependencies]
anyhow = "1"
clap = { version = "4", features = ["derive"] }
colored = "2"
dialoguer = "0.11"
libc = "0.2"
serde = { version = "1", features = ["derive"] }
serde_json = "1"
which = "*"
