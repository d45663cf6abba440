//! The messages that the host and the enclave exchange.

use vstd::prelude::*;

verus! {

/// A request from the host to the enclave.
#[derive(Debug)]
pub enum HostRequest {
    /// Create a wallet: a fresh root key, sealed under a data key that the
    /// key-management service generates.
    CardanoCreateWallet {
        aws_region: String,
        aws_access_key_id: String,
        aws_secret_access_key: String,
        aws_session_token: String,
        kms_proxy_port: String,
        kms_key_id: String,
    },
    /// Sign a transaction hash with the CIP-1852 key
    /// `m/1852'/1815'/account'/role/index` of a sealed root key.
    CardanoSignTransaction {
        tx_hash: Vec<u8>,
        aws_region: String,
        aws_access_key_id: String,
        aws_secret_access_key: String,
        aws_session_token: String,
        kms_proxy_port: String,
        aes_gcm_nonce: [u8; 12],
        encrypted_secret_key: Vec<u8>,
        kms_ciphertext: Vec<u8>,
        cip1852_account: u32,
        cip1852_index: u32,
        cip1852_role: u32,
    },
}

/// The enclave's answer to a request.
#[derive(Debug)]
pub enum EnclaveResponse {
    /// The sealed root key, its nonce, the encrypted data key, and the bech32
    /// public key of account 0.
    CardanoCreateWalletData {
        encrypted_secret_key: Vec<u8>,
        aes_gcm_nonce: [u8; 12],
        kms_ciphertext: Vec<u8>,
        aws_region: String,
        kms_key_id: String,
        account_index_0_xpub_bech32: String,
    },
    /// The extended public key of the signing key and the signature.
    CardanoSignTransactionData {
        public_key: Vec<u8>,
        signature: Vec<u8>,
    },
}

/// What the enclave sends back: a response, or why the request failed.
pub type EnclaveResult = Result<EnclaveResponse, String>;

} // verus!
