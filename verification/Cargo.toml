[package]
name = "opentelemetry_cli"
version = "0.1.0"
edition = "2021"
publish = false

[dependencies]
anyhow = "*"
chrono = "*"
clap = { version = "*", features = ["derive"] }
opentelemetry-proto = { version = "*", features = ["gen-tonic", "metrics", "logs"] }
tokio = { version = "*", features = ["macros", "rt-multi-thread"] }
tonic = "*"
tracing = "*"
tracing-subscriber = { version = "*", features = ["env-filter", "time"] }
