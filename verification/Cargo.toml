[package]
name = "contract_runner"
version = "0.1.0"
edition = "2021"
publish = false

[dependencies]
anyhow = "=1.0.104"
near-gas = "=0.3.7"
near-token = "=0.3.6"
near-workspaces = { version = "=0.23.0", default-features = false, features = ["rustls"] }
serde_json = "=1.0.154"
tokio = { version = "=1.54.1", features = ["full"] }
