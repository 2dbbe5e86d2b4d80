[package]
name = "fyles_core"
version = "0.1.0"
edition = "2021"
publish = false

[dependencies]
async-trait = "0.1"
base64 = "0.22"
bincode = { version = "2", features = ["serde"] }
chacha20poly1305 = "0.10"
chrono = "0.4"
clap = { version = "4", features = ["derive", "env"] }
ed25519-dalek = { version = "2", features = ["rand_core"] }
expiringmap = "=0.1.2"
fluent = "=0.17.0"
notify-rust = "4"
pqcrypto-dilithium = { version = "0.5", features = ["serialization"] }
pqcrypto-traits = "0.3"
rand = "0.8"
rusqlite = { version = "=0.41.1", features = ["bundled", "backup"] }
sanitize-filename = "=0.6.0"
semver = "1"
serde = { version = "1", features = ["derive"] }
serde_json = "1"
subtle = "2"
sys-locale = "0.3"
tokio = { version = "1", features = ["full"] }
unic-langid = "0.9"
uuid = { version = "1", features = ["v4"] }
zstd = "0.13"

[dev-dependencies]
tempfile = "3"
