[package]
name = "arch_bento"
version = "0.1.0"
edition = "2021"
publish = false

[dependencies]
serenity = "0.11"
songbird = "0.3"
redis = "0.23"
reqwest = "0.11"
serde = { version = "1", features = ["derive"] }
serde_json = "1"
tokio = { version = "1", features = ["macros", "rt-multi-thread"] }
toml = "0.7"
