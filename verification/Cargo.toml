[package]
name = "space_craft"
version = "0.1.0"
edition = "2021"
publish = false

[dependencies]
rand = "=0.8.8"
semver = "=1.0.28"
clap = { version = "=4.6.7", features = ["derive"] }
toml = "*"
toml_edit = "*"
tracing = "*"
tracing-subscriber = { version = "*", features = ["env-filter"] }
camino = "*"
convert_case = "*"
