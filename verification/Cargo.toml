[package]
name = "loona"
version = "0.1.0"
edition = "2021"
publish = false

[dependencies]
anyhow = "1"
async-trait = "0.1"
fluent-bundle = "0.16"
fluent-templates = "0.15"
poise = "0.6"
sea-orm = { version = "1", default-features = false, features = ["macros"] }
sea-orm-migration = { version = "1", default-features = false }
serde = { version = "1", features = ["derive"] }
tokio = { version = "1", features = ["macros", "rt-multi-thread", "fs"] }
toml = "*"
tracing = "0.1"
tracing-subscriber = { version = "0.3", features = ["env-filter"] }
