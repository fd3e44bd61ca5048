[package]
name = "recruit_core"
version = "0.1.0"
edition = "2021"
publish = false

[dependencies]
uuid = { version = "1", features = ["v4"] }
serenity = "0.11"
tokio = { version = "1", features = ["macros", "rt-multi-thread", "sync"] }
dotenv = "0.15"
