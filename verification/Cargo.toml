[package]
name = "attestation_bridge"
version = "0.1.0"
edition = "2021"
publish = false

[dependencies]
anyhow = "1"
aws-nitro-enclaves-nsm-api = "*"
base64 = "0.22"
serde = { version = "1", features = ["derive"] }
serde_json = "1"
vsock = "*"
