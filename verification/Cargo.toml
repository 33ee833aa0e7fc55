[package]
name = "fdahm"
version = "0.1.0"
edition = "2021"
publish = false

[dependencies]
toml = "*"
toml_edit = "*"
serde = { version = "*", features = ["derive"] }
clap = { version = "*", features = ["derive"] }
keyring = "*"
num-format = "*"
chrono = "*"
tokio = { version = "*", features = ["macros", "rt-multi-thread"] }
serenity = "*"
