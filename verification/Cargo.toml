[package]
name = "otto_launcher"
version = "0.1.0"
edition = "2021"
publish = false

[dependencies]
aes = "0.8"
base64 = "0.22"
bs58 = "0.5"
cbc = { version = "0.1", features = ["alloc", "block-padding"] }
dirs = "5"
ed25519-dalek = { version = "2", features = ["rand_core"] }
http-body-util = "0.1"
hyper = { version = "1", features = ["client", "http1"] }
hyper-util = { version = "0.1", features = ["client", "client-legacy", "http1", "tokio"] }
pbkdf2 = "0.12"
rand = "0.8"
semver = "1"
serde = { version = "1", features = ["derive"] }
serde_json = "1"
sha2 = "0.10"
ssh-key = { version = "0.6", features = ["ed25519"] }
tokio = { version = "1", features = ["net", "rt", "time"] }
tower = "0.5"
