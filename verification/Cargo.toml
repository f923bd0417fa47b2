[package]
name = "cargo-docs-rs"
version = "0.1.0"
edition = "2021"
publish = false

[dependencies]
serde_json = "1"
toml = "*"
clap = { version = "4", features = ["derive"] }
cargo-subcommand-metadata = "*"
