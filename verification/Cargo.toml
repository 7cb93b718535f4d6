[package]
name = "chat_relay"
version = "0.1.0"
edition = "2021"
publish = false

[dependencies]
base64 = "0.22"
lazy_static = "1"
ollama-rs = "*"
serenity = "0.12"
tokio = { version = "1", features = ["macros", "rt-multi-thread"] }
