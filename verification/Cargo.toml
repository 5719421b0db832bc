[package]
name = "pgp_disc"
version = "0.1.0"
edition = "2021"
publish = false

[dependencies]
anyhow = "*"
chrono = "*"
dotenvy = "*"
hex = "*"
owo-colors = "*"
rustyline = "*"
sha2 = "*"
tokio = { version = "*", features = ["full"] }
tracing = "*"
tracing-subscriber = { version = "*", features = ["env-filter"] }
twilight-gateway = "*"
twilight-http = "*"
twilight-model = "*"
