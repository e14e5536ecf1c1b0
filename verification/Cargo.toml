[package]
name = "help_desk_bot"
version = "0.1.0"
edition = "2021"
publish = false

[dependencies]
md5 = "=0.7.0"
tera = { version = "=1.20.1", default-features = false }
teloxide-core = "=0.4.5"
takecell = "=0.1.1"
tokio-util = { version = "=0.6.10", features = ["codec"] }
tokio = { version = "=1.54.1", features = ["full"] }
redis = { version = "=0.21.8", features = ["cluster", "r2d2"] }
r2d2 = "=0.8.10"
serde = { version = "=1.0.229", features = ["derive"] }
serde_yaml = "=0.8.26"
anyhow = "=1.0.104"
clap = { version = "=3.2.25", features = ["derive"] }
tracing = "=0.1.44"
tracing-subscriber = { version = "=0.3.23", features = ["env-filter"] }
tracing-appender = "0.2"
humantime-serde = "=1.1.1"
url = { version = "=2.5.8", features = ["serde"] }
futures = "=0.3.34"
dotenv = "=0.15.0"
once_cell = "=1.21.4"
