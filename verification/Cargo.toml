[package]
name = "mousebridge"
version = "0.1.0"
edition = "2021"
publish = false

[dependencies]
sha2 = "=0.10.9"
serde = { version = "=1.0.229", features = ["derive"] }
toml = "=0.8.23"
postcard = { version = "=1.1.3", features = ["use-std"] }
directories = "*"
tracing = "0.1"
tracing-subscriber = { version = "0.3", features = ["env-filter", "json"] }
tracing-appender = "0.2"
tokio = { version = "1", features = ["sync"] }

[dev-dependencies]
serde_json = "=1.0.154"
