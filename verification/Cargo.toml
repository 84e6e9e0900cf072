[package]
name = "geth_rpc"
version = "0.1.0"
edition = "2021"
publish = false

[dependencies]
serde = "*"
serde_json = "*"
ethers-core = "*"
ethers-providers = "*"
tokio = { version = "*", features = ["rt"] }
