[package]
name = "dexios_core"
version = "0.1.0"
edition = "2021"
publish = false

[dependencies]
aead = "0.5"
aes-gcm = "0.10"
chacha20poly1305 = "0.10"
deoxys = "0.1"
argon2 = "0.5"
blake3 = "1"
rand = "0.8"
anyhow = "1"
