[package]
name = "web5_pds"
version = "0.1.0"
edition = "2021"
publish = false

[dependencies]
chrono = { version = "=0.4.45", features = ["serde"] }
cid = { version = "=0.11.3", features = ["serde"] }
ckb-jsonrpc-types = "=1.2.1"
ckb-sdk = "=5.1.0"
ckb-types = "=1.1.4"
hex = "=0.4.3"
rand = "=0.8.8"
reqwest = { version = "=0.12.28", default-features = false }
rsky-crypto = "=0.2.1"
serde = { version = "=1.0.229", features = ["derive"] }
serde_ipld_dagcbor = "=0.7.0"
serde_json = "=1.0.154"
sha2 = "=0.10.9"

[dev-dependencies]
p256 = { version = "=0.13.2", features = ["ecdsa"] }
secp256k1 = "=0.28.2"
