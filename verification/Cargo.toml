[package]
name = "keyring"
version = "0.1.0"
edition = "2021"
publish = false

[dependencies]
bcrypt = "*"
bip32 = "0.4"
clap = { version = "*", features = ["derive"] }
colored = "*"
dialoguer = "*"
hex = "*"
josekit = "*"
k256 = "0.11"
rand = "0.8"
serde = { version = "*", features = ["derive"] }
serde_json = "*"
thiserror = "*"
