[package]
name = "bullpen"
version = "0.1.0"
edition = "2021"
publish = false

[dependencies]
anyhow = "1"
async-trait = "0.1"
bytes = "1"
cln-rpc = "*"
dotenv = "0.15"
env_logger = "*"
futures-util = "0.3"
hex = "0.4"
lightning-invoice = "*"
log = "0.4"
once_cell = "1"
reqwest = { version = "*", features = ["json", "stream"] }
serde = { version = "1", features = ["derive"] }
serde_json = "1"
tokio = { version = "1", features = ["full"] }
tonic_lnd = "*"
url = "2"
