[package]
name = "trustvault"
version = "0.1.0"
edition = "2021"
publish = false

[dependencies]
ed25519-bip32 = "0.4"
bech32 = "0.11"
pallas-crypto = "*"
pallas-addresses = "*"
getrandom = "0.3"
aes-gcm = "0.10"
base64 = "0.22"
serde = { version = "1", features = ["derive"] }
serde_cbor = "0.11"
thiserror = "2"
tokio = { version = "1", features = ["rt-multi-thread", "macros", "net", "io-util", "sync", "process"] }
tokio-vsock = "*"
webauthn-rs = "*"
