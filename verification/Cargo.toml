[package]
name = "fast_config"
version = "1.2.1"
edition = "2021"
publish = false

[dependencies]
serde = "1"
serde_json = "1"
json5 = "*"
toml = "*"
serde_yml = "*"
thiserror = "*"
