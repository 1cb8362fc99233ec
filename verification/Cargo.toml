[package]
name = "graphcast_cli"
version = "0.1.0"
edition = "2021"
publish = false

[dependencies]
anyhow = "=1.0.104"
async-graphql = { version = "=4.0.16", default-features = false }
chrono = "=0.4.45"
clap = { version = "=4.6.7", features = ["derive", "env"] }
dotenv = "=0.15.0"
ethers-contract = { version = "=2.0.14", default-features = false, features = ["abigen"] }
ethers-core = { version = "=2.0.14", default-features = false }
ethers-derive-eip712 = "=1.0.2"
prost = "=0.11.9"
reqwest = { version = "=0.11.27", features = ["json"] }
serde = { version = "=1.0.229", features = ["derive"] }
serde_json = "=1.0.154"
thiserror = "=1.0.69"
tokio = { version = "=1.54.1", features = ["full"] }
tracing = "=0.1.44"
