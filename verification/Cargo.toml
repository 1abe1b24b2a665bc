[package]
name = "grader"
version = "0.1.0"
edition = "2021"
publish = false

[dependencies]
ansi_term = "0.12"
clap = { version = "3", features = ["derive"] }
futures-util = "0.3"
serde = { version = "1", features = ["derive"] }
shiplift = "0.7"
tokio = { version = "1", features = ["full"] }
toml = "0.5"
