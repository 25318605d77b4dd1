[package]
name = "trie_recorder"
version = "0.1.0"
edition = "2021"
publish = false

[dependencies]
cita-types = "=0.2.0"
tiny-keccak = "=1.5.0"
serde = { version = "=1.0.229", features = ["derive"] }
serde_json = "=1.0.154"

[dev-dependencies]
fixed-hash = "=0.2.5"
hashdb = "=0.2.1"
keccak-hasher = "=0.1.1"
memorydb = "=0.2.1"
patricia-trie = "=0.2.2"
patricia-trie-ethereum = "=0.1.0"
