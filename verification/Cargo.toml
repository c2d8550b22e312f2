[package]
name = "nixlings"
version = "0.1.0"
edition = "2021"
publish = false

[dependencies]
anyhow = "*"
clap = { version = "*", features = ["derive"] }
indicatif = "*"
serde = { version = "*", features = ["derive"] }
toml_edit = { version = "*", features = ["serde"] }
which = "*"
