# trustvault

Key handling for an enclave-backed Cardano vault, written in Verus.

- `src/` is the verified library: Ed25519-BIP32 keys held as bytes (derivation,
  bech32 text), Cardano base and reward addresses, signing with an extended
  secret, AES-256-GCM sealing of root keys, the stand-in key-management service,
  the reader of the key-management tool's output, the data-key cache, message
  framing, and the router that creates wallets and signs transaction hashes.
  Calls into `ed25519-bip32`, `bech32`, `pallas-*`, `aes-gcm`, `base64` and
  `getrandom` go through small trusted wrappers whose contracts are stated next
  to them.
- `app/` is the program around it: the enclave server and the host client
  (sockets, CBOR encoding with serde, the shared cache behind a lock, the
  `kmstool_enclave_cli` process) and passkey registration.
- `tests/` runs the library with the real outside crates.
