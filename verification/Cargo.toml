[package]
name = "ver_sync"
version = "0.1.0"
edition = "2021"
publish = false

[dependencies]
toml_edit = "*"
clap = { version = "4", features = ["derive"] }
anyhow = "1"
