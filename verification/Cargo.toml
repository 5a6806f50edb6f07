[package]
name = "razi"
version = "0.1.0"
edition = "2021"
publish = false

[dependencies]
serenity = "0.10"
tokio = { version = "1", features = ["macros", "rt-multi-thread", "sync"] }
chrono = "0.4"
isahc = "1"
serde = { version = "1", features = ["derive"] }
serde_json = "1"
toml = "0.5"
