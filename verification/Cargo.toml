[package]
name = "orchestrator"
version = "0.1.0"
edition = "2021"
publish = false

[dependencies]
clarity = "*"
deep_space = "*"
docopt = "*"
env_logger = "*"
error-chain = "*"
ethabi = "16"
log = "*"
serde = { version = "*", features = ["derive"] }
tokio = { version = "*", features = ["time", "rt", "macros"] }
web3 = { version = "*", default-features = false, features = ["ipc-tokio"] }
web30 = "*"
