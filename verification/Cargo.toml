[package]
name = "vault_orchestrator"
version = "0.1.0"
edition = "2021"
publish = false

[dependencies]
candid = "0.10"
ic-cdk = "0.18"
ic-cdk-timers = "0.12"
serde = { version = "1", features = ["derive"] }
