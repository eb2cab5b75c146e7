[package]
name = "misp2sentinel-core"
version = "0.1.0"
edition = "2021"
publish = false

[dependencies]
chrono = { version = "0.4", features = ["serde"] }
uuid = { version = "1", features = ["v4", "v5"] }
serde = { version = "1", features = ["derive"] }
serde_json = "1"
toml = "*"
reqwest = { version = "0.12", features = ["json"] }
tokio = { version = "1", features = ["full"] }
futures = "0.3"
tracing = "0.1"
tracing-subscriber = { version = "0.3", features = ["env-filter", "json"] }
clap = { version = "4", features = ["derive", "env"] }
dotenvy = "0.15"
indicatif = "*"
console = "*"
rayon = "1"
thiserror = "*"
anyhow = "1"
axum = "*"
lambda_runtime = "*"
azure_identity = "*"
azure_security_keyvault_secrets = "*"
