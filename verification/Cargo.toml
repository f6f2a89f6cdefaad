[package]
name = "manual_seal"
version = "0.1.0"
edition = "2021"
publish = false

[dependencies]
parity-scale-codec = "*"
multiaddr = "*"
libp2p-identity = { version = "*", features = ["peerid"] }
futures = "*"
log = "*"
rand = "*"
tokio = { version = "*", features = ["time"] }
sp-core = "*"
