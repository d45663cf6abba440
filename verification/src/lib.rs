//! Key handling for an enclave-backed Cardano vault.
//!
//! The library holds Ed25519-BIP32 extended keys as plain bytes, derives and
//! encodes them through the `ed25519-bip32` and `bech32` crates, builds Cardano
//! addresses, seals root keys with AES-256-GCM, parses the key-management tool's
//! output, runs the stand-in key-management service, caches decrypted data keys,
//! frames transport messages, and answers the host's requests: creating a wallet
//! and signing a transaction hash.

mod outside;
mod entropy;

pub mod aes256gcm;
pub mod addresses;
pub mod ed25519_bip32;
pub mod encoding;
pub mod encryption_key_cache;
pub mod kmstool;
pub mod mock_kms;
pub mod router;
pub mod signing;
pub mod transport;
pub mod vsock;
