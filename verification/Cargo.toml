[package]
name = "hd_keys"
version = "0.1.0"
edition = "2021"
publish = false

[dependencies]
bdk = { version = "0.30", features = ["keys-bip39"] }
bitcoin = "0.32"
bs58 = "0.5"
rand = "0.9"
sha2 = "0.10"
