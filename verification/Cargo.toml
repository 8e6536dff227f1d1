[package]
name = "weather_core"
version = "0.1.0"
edition = "2021"
publish = false

[dependencies]
serde_json = { version = "=1.0.151", features = ["arbitrary_precision"] }
serde = { version = "1", features = ["derive"] }
toml = "*"
directories = "*"
clap = { version = "4", features = ["derive"] }
inquire = "*"
reqwest = { version = "=0.13.5", default-features = false, features = ["query"] }
tokio = { version = "1", features = ["macros", "rt"] }
anyhow = "1"
chrono = "*"
