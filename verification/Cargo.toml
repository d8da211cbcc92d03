[package]
name = "aquarium"
version = "0.1.0"
edition = "2021"
publish = false

[dependencies]
cosmrs = { version = "=0.22.0", features = ["cosmwasm", "bip32"] }
bip32 = { version = "=0.5.3", features = ["bip39"] }
base64 = "=0.23.1"
serde = { version = "*", features = ["derive"] }
serde_json = "*"
anyhow = "*"
clap = { version = "*", features = ["derive"] }
toml = "*"
dotenv = "*"
reqwest = { version = "*", default-features = false, features = ["json"] }
tokio = { version = "*", features = ["rt-multi-thread", "macros", "time"] }
