[package]
name = "e-sequencer-node"
version = "0.1.0"
edition = "2021"
publish = false

[dependencies]
hex = "*"
schnorrkel = "*"
libp2p = { version = "*", features = ["ed25519"] }
rand = "*"
serde_json = "*"
tokio = { version = "*", features = ["full"] }
clap = { version = "*", features = ["derive", "env"] }
env_logger = "*"
log = "*"
rpassword = "*"
