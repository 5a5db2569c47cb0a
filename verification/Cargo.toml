[package]
name = "repo_config"
version = "0.1.0"
edition = "2021"
publish = false

[dependencies]
hex = "0.4"
serde_yaml = "0.9"
