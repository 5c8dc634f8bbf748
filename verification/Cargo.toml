[package]
name = "antiscam"
version = "0.1.0"
edition = "2021"
publish = false

[dependencies]
teloxide = "=0.17.0"
tokio = { version = "=1.53.2", features = ["full"] }
toml = "=0.8.23"
serde = { version = "=1.0.229", features = ["derive"] }
takecell = "=0.1.1"
