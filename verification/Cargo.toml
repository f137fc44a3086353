[package]
name = "cid_proof_lib"
version = "0.1.0"
edition = "2021"
publish = false

[dependencies]
alloy-sol-types = "=0.8.26"
cid = { version = "=0.11.3", default-features = false, features = ["std"] }
multihash = { version = "=0.19.5", default-features = false, features = ["std"] }
multihash-codetable = { version = "=0.2.2", default-features = false, features = ["std", "sha2"] }
hex = "=0.4.3"
serde = { version = "=1.0.229", features = ["derive"] }
serde_json = "=1.0.154"
clap = { version = "=4.6.7", features = ["derive"] }
dotenv = "=0.15.0"
sp1-zkvm = "4"
