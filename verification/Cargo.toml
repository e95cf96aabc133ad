[package]
name = "arel"
version = "0.1.0"
edition = "2021"
publish = false

[dependencies]
Inflector = "=0.11.4"
regex = "=1.13.1"
serde_json = "=1.0.154"
anyhow = "=1.0.104"
once_cell = "=1.21.4"
chrono = "=0.4.45"
clap = "=3.2.25"
tokio = { version = "=1.54.1", features = ["macros", "rt-multi-thread"] }
sqlx = { version = "=0.7.4", default-features = false, features = ["runtime-tokio", "any"] }
