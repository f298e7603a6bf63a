[package]
name = "migrate_to_uv"
version = "0.12.0"
edition = "2021"
publish = false

[dependencies]
clap = { version = "4", features = ["derive"] }
indexmap = "2"
log = "0.4"
owo-colors = "4"
pep440_rs = "0.7"
serde = { version = "1", features = ["derive"] }
toml = "*"
toml_edit = "*"
