[package]
name = "record_chain"
version = "0.1.0"
edition = "2021"
publish = false

[dependencies]
curve25519-dalek = { version = "1", features = ["serde"] }
sha2 = "0.8"
base64 = "0.10"
rand_os = "0.1"
rust-crypto = "0.2"
aes-stream = "*"
clear_on_drop = "0.2"
arrayref = "0.3"
clap = "2"
num-format = "0.4"
rand = "0.6"

[dev-dependencies]
bincode = "1"
serde = "1"
