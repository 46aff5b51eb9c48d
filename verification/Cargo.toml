[package]
name = "notes_vault"
version = "0.1.0"
edition = "2021"
publish = false

[dependencies]
aes-gcm-siv = "0.11"
ed25519-dalek = "1"
getrandom = "0.2"
hex = "0.4"
scrypt = "0.11"
rpassword = "7"
