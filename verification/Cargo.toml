[package]
name = "cargo-verison"
version = "0.1.0"
edition = "2021"

[dependencies]
clap = { version = "4", features = ["derive"] }
git2 = { version = "0.19", default-features = false }
semver = "1"
toml = "0.8"
toml_edit = "0.22"
