[package]
name = "hotkey_shell"
version = "0.1.0"
edition = "2021"
publish = false

[dependencies]
dotenv = "0.15"
tokio = { version = "1", features = ["process"] }
