[package]
name = "solmeta"
version = "0.1.0"
edition = "2021"
publish = false

[dependencies]
bs58 = "*"
hex = "*"
sha3 = "*"
serde_cbor = "*"
serde = { version = "*", features = ["derive"] }
serde_json = "*"
serde_with = "*"
clap = { version = "*", features = ["derive"] }
eyre = "*"
secp256k1 = { version = "*", features = ["rand"] }
zeroize = "*"
tokio = { version = "*", features = ["macros", "rt-multi-thread"] }
futures = "*"
reqwest = { version = "*", default-features = false }
url = "*"
alloy-network = "*"
alloy-primitives = "*"
alloy-rlp = "*"
alloy-rpc-types = "*"
alloy-signer-local = "*"
k256 = "*"
