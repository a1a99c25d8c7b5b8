[package]
name = "gim"
version = "1.8.0"
edition = "2021"
publish = false

[dependencies]
chrono = "=0.4.45"
clap = { version = "=4.6.7", features = ["derive"] }
gim-config = "=1.0.0"
indoc = "=2.0.8"
reqwest = { version = "=0.12.28", features = ["json"] }
semver = "=1.0.28"
serde = { version = "=1.0.229", features = ["derive"] }
serde_json = "=1.0.154"
tokio = { version = "=1.54.1", features = ["macros", "rt-multi-thread"] }
toml = "=0.8.23"
validator = { version = "=0.21.0", features = ["derive"] }
