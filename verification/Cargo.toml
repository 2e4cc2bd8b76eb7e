[package]
name = "bafb"
version = "0.1.0"
edition = "2021"
publish = false

[dependencies]
zip = "*"
clap = { version = "*", features = ["derive"] }
serde = { version = "*", features = ["derive"] }
toml = "*"
tokio = { version = "*", features = ["macros", "rt-multi-thread"] }
reqwest = { version = "*", features = ["json"] }
trauma = "*"
eyre = "*"
