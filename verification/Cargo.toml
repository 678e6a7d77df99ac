[package]
name = "arc_node"
version = "0.1.0"
edition = "2021"
publish = false

[dependencies]
alloy-primitives = "*"
alloy-sol-types = "*"
alloy-consensus = "*"
alloy-signer = "*"
alloy-signer-local = "*"
k256 = "*"
slh-dsa = "*"
revm = { version = "*", default-features = false }
revm-interpreter = { version = "*", default-features = false }
rand = "0.8"
serde = { version = "1", features = ["derive"] }
serde_json = "1"
tokio = { version = "1", features = ["sync"] }
