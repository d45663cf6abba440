//! The enclave's answer to each host request: creating a wallet and signing a
//! transaction hash with a CIP-1852 key of a sealed root key.

use vstd::prelude::*;
use std::sync::Arc;
use crate::aes256gcm::{
    aes256gcm_open, aes256gcm_seal, decrypt_private_key_aes256gcm, encrypt_private_key_aes256gcm,
    Aes256GcmError,
};
use crate::ed25519_bip32::{
    ed25519_extended_public, extended_scalar_valid, private_key_check, public_key_from_text, xprv_derived,
    xprv_public_key, xpub_derived, xpub_hrp, bytes_to_array, Ed25519Bip32PrivateKey, PrivateKeyError, HARDENED,
};
use crate::encoding::bech32_encoding;
use crate::encryption_key_cache::{EncryptionKey, EncryptionKeyCache};
use crate::entropy::random_bytes;
use crate::kmstool::KmsToolError;
use crate::mock_kms::{decrypt, genkey, mock_unwrap, mock_unwrap_key};
use crate::signing::ed25519_extended_signature;
use crate::transport::{EnclaveResponse, HostRequest};

verus! {

/// Why a request was not answered.
#[derive(Debug)]
pub enum RouterError {
    /// The root private key could not be generated.
    KeyGeneration(::getrandom::Error),
    /// The nonce could not be generated.
    NonceGeneration(::getrandom::Error),
    /// The account public key could not be written as bech32.
    XpubEncoding(::bech32::EncodeError),
    /// The key-management service did not generate a data key.
    DataKeyGeneration(KmsToolError),
    /// The root private key could not be sealed under the data key.
    PrivateKeyEncryption(Aes256GcmError),
    /// The key-management service did not decrypt the data key.
    DataKeyDecryption(KmsToolError),
    /// The sealed private key could not be opened.
    PrivateKeyDecryption(Aes256GcmError),
    /// The opened private key is not 96 bytes long; its length.
    PrivateKeyLength(usize),
    /// The opened bytes are not an extended private key.
    InvalidPrivateKey(PrivateKeyError),
}

/// Why signing fails, as a function of the inputs.
pub enum SignFailure {
    /// The data key is not 32 bytes long.
    DataKeyLength(nat),
    /// The sealed private key does not open under the data key and nonce.
    Unsealing,
    /// The opened private key is not 96 bytes long.
    SecretKeyLength(nat),
    /// The opened bytes are not an extended private key.
    PrivateKey(PrivateKeyError),
}

// ---------------------------------------------------------------------------
// Specifications
// ---------------------------------------------------------------------------

/// The CIP-1852 account key `m/1852'/1815'/account'` of a root key.
pub open spec fn cip1852_account_key(root: Seq<u8>, account: u32) -> Seq<u8> {
    xprv_derived(xprv_derived(xprv_derived(root, 1852u32 | HARDENED), 1815u32 | HARDENED), account | HARDENED)
}

/// The CIP-1852 key `m/1852'/1815'/account'/role/index` of a root key.
pub open spec fn cip1852_key(root: Seq<u8>, account: u32, role: u32, index: u32) -> Seq<u8> {
    xprv_derived(xprv_derived(cip1852_account_key(root, account), role), index)
}

/// The secrets behind a created wallet: a root key with the shape of an Ed25519
/// extended secret, sealed under a 32-byte data key and a nonce; the data key,
/// which the encrypted data key unwraps to; and the bech32 text of the public
/// key of account 0.
pub open spec fn wallet_secrets(
    root: Seq<u8>,
    data_key: Seq<u8>,
    encrypted_secret_key: Seq<u8>,
    nonce: Seq<u8>,
    kms_ciphertext: Seq<u8>,
    account_xpub: Seq<char>,
) -> bool {
    &&& root.len() == 96
    &&& extended_scalar_valid(root)
    &&& data_key.len() == 32
    &&& mock_unwrap(kms_ciphertext) == Some(data_key)
    &&& encrypted_secret_key == aes256gcm_seal(data_key, nonce, root)
    &&& aes256gcm_open(data_key, nonce, encrypted_secret_key) == Some(root)
    &&& account_xpub == bech32_encoding(xpub_hrp(), xprv_public_key(cip1852_account_key(root, 0)))
    &&& public_key_from_text(account_xpub) == Some(xprv_public_key(cip1852_account_key(root, 0)))
}

/// What creating a wallet gives and does to the cache: on success, the response
/// echoes the region and key id and carries the sealed root key, its nonce, the
/// encrypted data key and the account public key, all tied by `wallet_secrets`,
/// and the data key is cached under its encrypted form; on failure (the random
/// source or the key-management service failed) the cache is unchanged.
pub open spec fn wallet_created(
    before: Map<Seq<u8>, Seq<u8>>,
    after: Map<Seq<u8>, Seq<u8>>,
    aws_region: Seq<char>,
    kms_key_id: Seq<char>,
    r: Result<EnclaveResponse, RouterError>,
) -> bool {
    match r {
        Ok(EnclaveResponse::CardanoCreateWalletData {
            encrypted_secret_key,
            aes_gcm_nonce,
            kms_ciphertext,
            aws_region: region,
            kms_key_id: key_id,
            account_index_0_xpub_bech32,
        }) => {
            &&& region@ == aws_region
            &&& key_id@ == kms_key_id
            &&& exists|root: Seq<u8>, data_key: Seq<u8>|
                #[trigger] wallet_secrets(
                    root,
                    data_key,
                    encrypted_secret_key@,
                    aes_gcm_nonce@,
                    kms_ciphertext@,
                    account_index_0_xpub_bech32@,
                ) && after == before.insert(kms_ciphertext@, data_key)
        },
        Ok(_) => false,
        Err(e) => {
            &&& after == before
            &&& (e is KeyGeneration || e is NonceGeneration || e is DataKeyGeneration)
        },
    }
}

/// Whether the data key for an encrypted data key can be had: it is cached, or
/// the key-management service unwraps it.
pub open spec fn data_key_available(cache: Map<Seq<u8>, Seq<u8>>, kms_ciphertext: Seq<u8>) -> bool {
    cache.contains_key(kms_ciphertext) || mock_unwrap(kms_ciphertext) is Some
}

/// The data key for an encrypted data key: the cached one, or the one that the
/// key-management service unwraps.
pub open spec fn data_key_for(cache: Map<Seq<u8>, Seq<u8>>, kms_ciphertext: Seq<u8>) -> Seq<u8> {
    if cache.contains_key(kms_ciphertext) {
        cache[kms_ciphertext]
    } else {
        match mock_unwrap(kms_ciphertext) {
            Some(k) => k,
            None => Seq::empty(),
        }
    }
}

/// What signing gives: the extended public key of the CIP-1852 key of the opened
/// root key and the signature of the transaction hash under its secret, or the
/// first step that fails.
pub open spec fn sign_result(
    data_key: Seq<u8>,
    nonce: Seq<u8>,
    encrypted_secret_key: Seq<u8>,
    tx_hash: Seq<u8>,
    account: u32,
    role: u32,
    index: u32,
) -> Result<(Seq<u8>, Seq<u8>), SignFailure> {
    if data_key.len() != 32 {
        Err(SignFailure::DataKeyLength(data_key.len()))
    } else {
        match aes256gcm_open(data_key, nonce, encrypted_secret_key) {
            None => Err(SignFailure::Unsealing),
            Some(root) => if root.len() != 96 {
                Err(SignFailure::SecretKeyLength(root.len()))
            } else {
                match private_key_check(root) {
                    Err(e) => Err(SignFailure::PrivateKey(e)),
                    Ok(_) => {
                        let child = cip1852_key(root, account, role, index);
                        Ok((xprv_public_key(child), ed25519_extended_signature(child.subrange(0, 64), tx_hash)))
                    },
                }
            },
        }
    }
}

/// The error that reports a signing failure.
pub open spec fn reports(e: RouterError, f: SignFailure) -> bool {
    match f {
        SignFailure::DataKeyLength(n) => e matches RouterError::PrivateKeyDecryption(
            Aes256GcmError::InvalidKeyLength(m),
        ) && m == n,
        SignFailure::Unsealing => e matches RouterError::PrivateKeyDecryption(Aes256GcmError::Aead(_)),
        SignFailure::SecretKeyLength(n) => e matches RouterError::PrivateKeyLength(m) && m == n,
        SignFailure::PrivateKey(pe) => e matches RouterError::InvalidPrivateKey(x) && x == pe,
    }
}

/// The keys on the CIP-1852 path below an account key are soft children of the
/// account's extended public key: where role and index are soft and the account
/// key, the role key and the signing key each have a scalar below 2^255 (byte
/// 31 below `0x80`), deriving the account's extended public key by the role and
/// then by the index gives the extended public keys of the role key and of the
/// signing key.
pub open spec fn soft_path_matches(root: Seq<u8>, account: u32, role: u32, index: u32) -> bool {
    let account_key = cip1852_account_key(root, account);
    let role_key = xprv_derived(account_key, role);
    let child = xprv_derived(role_key, index);
    role < HARDENED && index < HARDENED && account_key[31] < 0x80 && role_key[31] < 0x80 && child[31] < 0x80
        ==> xpub_derived(xprv_public_key(account_key), role) == Some(xprv_public_key(role_key))
        && xpub_derived(xprv_public_key(role_key), index) == Some(xprv_public_key(child))
}

/// `soft_path_matches` for the root key that the data key opens, if any.
pub open spec fn opened_soft_path_matches(
    data_key: Seq<u8>,
    nonce: Seq<u8>,
    encrypted_secret_key: Seq<u8>,
    account: u32,
    role: u32,
    index: u32,
) -> bool {
    match aes256gcm_open(data_key, nonce, encrypted_secret_key) {
        Some(root) => root.len() == 96 && private_key_check(root) is Ok ==> soft_path_matches(root, account, role, index),
        None => true,
    }
}

/// What signing with a data key gives: `sign_result` of that key, the public key
/// and signature in the answer, 64 bytes each, or the error that reports the
/// failing step.
pub open spec fn signed_with(
    data_key: Seq<u8>,
    tx_hash: Seq<u8>,
    nonce: Seq<u8>,
    encrypted_secret_key: Seq<u8>,
    account: u32,
    role: u32,
    index: u32,
    r: Result<EnclaveResponse, RouterError>,
) -> bool {
    match sign_result(data_key, nonce, encrypted_secret_key, tx_hash, account, role, index) {
        Ok((pk, sig)) => r matches Ok(EnclaveResponse::CardanoSignTransactionData { public_key, signature })
            && public_key@ == pk && signature@ == sig && public_key@.len() == 64 && signature@.len() == 64
            && signed_by_one_secret(tx_hash, public_key@, signature@)
            && opened_soft_path_matches(data_key, nonce, encrypted_secret_key, account, role, index),
        Err(f) => r matches Err(e) && reports(e, f),
    }
}

/// The signature and the public key of a signing answer belong to one extended
/// secret: the public key begins with that secret's Ed25519 point, and the
/// signature is that secret's signature of the transaction hash.
pub open spec fn signed_by_one_secret(tx_hash: Seq<u8>, public_key: Seq<u8>, signature: Seq<u8>) -> bool {
    exists|secret: Seq<u8>|
        #![trigger ed25519_extended_signature(secret, tx_hash)]
        secret.len() == 64 && public_key.subrange(0, 32) == ed25519_extended_public(secret)
            && signature == ed25519_extended_signature(secret, tx_hash)
}

/// What signing gives and does to the cache: the data key used is
/// `data_key_for` the encrypted data key, and is cached under it afterwards; the
/// result is that of signing with that key.
pub open spec fn transaction_signed(
    before: Map<Seq<u8>, Seq<u8>>,
    after: Map<Seq<u8>, Seq<u8>>,
    tx_hash: Seq<u8>,
    nonce: Seq<u8>,
    encrypted_secret_key: Seq<u8>,
    kms_ciphertext: Seq<u8>,
    account: u32,
    role: u32,
    index: u32,
    r: Result<EnclaveResponse, RouterError>,
) -> bool {
    let data_key = data_key_for(before, kms_ciphertext);
    &&& after == before.insert(kms_ciphertext, data_key)
    &&& signed_with(data_key, tx_hash, nonce, encrypted_secret_key, account, role, index, r)
}

/// Whether a request can be answered: a signing request needs its data key.
pub open spec fn answerable(cache: Map<Seq<u8>, Seq<u8>>, request: HostRequest) -> bool {
    match request {
        HostRequest::CardanoCreateWallet { .. } => true,
        HostRequest::CardanoSignTransaction { kms_ciphertext, .. } => data_key_available(cache, kms_ciphertext@),
    }
}

/// What answering a request gives and does to the cache.
pub open spec fn answered(
    before: Map<Seq<u8>, Seq<u8>>,
    after: Map<Seq<u8>, Seq<u8>>,
    request: HostRequest,
    r: Result<EnclaveResponse, RouterError>,
) -> bool {
    match request {
        HostRequest::CardanoCreateWallet { aws_region, kms_key_id, .. } => wallet_created(
            before,
            after,
            aws_region@,
            kms_key_id@,
            r,
        ),
        HostRequest::CardanoSignTransaction {
            tx_hash,
            aes_gcm_nonce,
            encrypted_secret_key,
            kms_ciphertext,
            cip1852_account,
            cip1852_index,
            cip1852_role,
            ..
        } => transaction_signed(
            before,
            after,
            tx_hash@,
            aes_gcm_nonce@,
            encrypted_secret_key@,
            kms_ciphertext@,
            cip1852_account,
            cip1852_role,
            cip1852_index,
            r,
        ),
    }
}

// ---------------------------------------------------------------------------
// Requests
// ---------------------------------------------------------------------------

/// The first half of creating a wallet: a fresh root key (with the shape of an
/// Ed25519 extended secret), a fresh nonce, and the bech32 text of the public
/// key of account 0 (`m/1852'/1815'/0'`). It fails only when the random source
/// does.
pub fn prepare_wallet() -> (r: Result<(Ed25519Bip32PrivateKey, [u8; 12], String), RouterError>)
    ensures
        match r {
            Ok((root, nonce, account_xpub)) => {
                &&& root@.len() == 96
                &&& extended_scalar_valid(root@)
                &&& account_xpub@ == bech32_encoding(xpub_hrp(), xprv_public_key(cip1852_account_key(root@, 0)))
                &&& public_key_from_text(account_xpub@) == Some(xprv_public_key(cip1852_account_key(root@, 0)))
            },
            Err(e) => e is KeyGeneration || e is NonceGeneration,
        },
{
    let root_xprv = match Ed25519Bip32PrivateKey::generate() {
        Ok(k) => k,
        Err(e) => return Err(RouterError::KeyGeneration(e)),
    };
    let nonce = match random_bytes::<12>() {
        Ok(n) => n,
        Err(e) => return Err(RouterError::NonceGeneration(e)),
    };
    let account_xprv = root_xprv.derive(1852 | HARDENED).derive(1815 | HARDENED).derive(0 | HARDENED);
    let account_index_0_xpub_bech32 = match account_xprv.to_public().to_bech32() {
        Ok(s) => s,
        Err(e) => return Err(RouterError::XpubEncoding(e)),
    };
    proof {
        root_xprv.lemma_len();
        assert(0u32 | HARDENED == HARDENED) by (bit_vector);
    }
    Ok((root_xprv, nonce, account_index_0_xpub_bech32))
}

/// The second half of creating a wallet, once the key-management service has
/// generated a data key: seals the root key under the data key and the nonce,
/// caches the data key under its encrypted form, and answers with the sealed
/// root key, the nonce, the encrypted data key, the region, the key id and the
/// account public key. A data key that is not 32 bytes long is refused, with the
/// cache unchanged.
pub fn finish_wallet(
    cache: &mut EncryptionKeyCache,
    root_xprv: &Ed25519Bip32PrivateKey,
    nonce: [u8; 12],
    account_index_0_xpub_bech32: String,
    encryption_key_ciphertext: Vec<u8>,
    encryption_key_plaintext: Vec<u8>,
    aws_region: String,
    kms_key_id: String,
) -> (r: Result<EnclaveResponse, RouterError>)
    ensures
        encryption_key_plaintext@.len() != 32 ==> final(cache)@ == old(cache)@ && (r matches Err(
            RouterError::PrivateKeyEncryption(Aes256GcmError::InvalidKeyLength(n)),
        ) && n == encryption_key_plaintext@.len()),
        encryption_key_plaintext@.len() == 32 ==> {
            &&& final(cache)@ == old(cache)@.insert(encryption_key_ciphertext@, encryption_key_plaintext@)
            &&& r matches Ok(EnclaveResponse::CardanoCreateWalletData {
                encrypted_secret_key,
                aes_gcm_nonce,
                kms_ciphertext,
                aws_region: region,
                kms_key_id: key_id,
                account_index_0_xpub_bech32: account_xpub,
            })
            &&& encrypted_secret_key@ == aes256gcm_seal(encryption_key_plaintext@, nonce@, root_xprv@)
            &&& aes256gcm_open(encryption_key_plaintext@, nonce@, encrypted_secret_key@) == Some(root_xprv@)
            &&& aes_gcm_nonce == nonce
            &&& kms_ciphertext@ == encryption_key_ciphertext@
            &&& region@ == aws_region@
            &&& key_id@ == kms_key_id@
            &&& account_xpub@ == account_index_0_xpub_bech32@
        },
{
    proof {
        root_xprv.lemma_len();
    }
    let root_bytes = root_xprv.as_bytes();
    let private_key_ciphertext = match encrypt_private_key_aes256gcm(
        root_bytes.as_slice(),
        encryption_key_plaintext.as_slice(),
        &nonce,
    ) {
        Ok(c) => c,
        Err(e) => return Err(RouterError::PrivateKeyEncryption(e)),
    };
    let cached_ciphertext = vstd::slice::slice_to_vec(encryption_key_ciphertext.as_slice());
    cache.insert(cached_ciphertext, Arc::new(encryption_key_plaintext));
    Ok(EnclaveResponse::CardanoCreateWalletData {
        encrypted_secret_key: private_key_ciphertext,
        aes_gcm_nonce: nonce,
        kms_ciphertext: encryption_key_ciphertext,
        aws_region: aws_region,
        kms_key_id: kms_key_id,
        account_index_0_xpub_bech32: account_index_0_xpub_bech32,
    })
}

/// Creates a wallet: prepares a root key, a nonce and the account public key,
/// has the key-management service generate a data key, and finishes the wallet
/// with it.
pub fn create_wallet(
    cache: &mut EncryptionKeyCache,
    aws_region: String,
    aws_access_key_id: String,
    aws_secret_access_key: String,
    aws_session_token: String,
    kms_proxy_port: String,
    kms_key_id: String,
) -> (r: Result<EnclaveResponse, RouterError>)
    ensures
        wallet_created(old(cache)@, final(cache)@, aws_region@, kms_key_id@, r),
{
    let (root_xprv, nonce, account_index_0_xpub_bech32) = match prepare_wallet() {
        Ok(p) => p,
        Err(e) => return Err(e),
    };
    let keys = match genkey(
        aws_region.as_str(),
        aws_access_key_id.as_str(),
        aws_secret_access_key.as_str(),
        aws_session_token.as_str(),
        kms_proxy_port.as_str(),
        kms_key_id.as_str(),
        "AES-256",
    ) {
        Ok(k) => k,
        Err(e) => return Err(RouterError::DataKeyGeneration(e)),
    };
    let encryption_key_ciphertext = vstd::slice::slice_to_vec(keys[0].as_slice());
    let encryption_key_plaintext = vstd::slice::slice_to_vec(keys[1].as_slice());
    let ghost root = root_xprv@;
    let ghost data_key = encryption_key_plaintext@;
    let ghost ciphertext = encryption_key_ciphertext@;
    let ghost account_xpub = account_index_0_xpub_bech32@;
    let ghost region = aws_region@;
    let ghost key_id = kms_key_id@;
    let r = finish_wallet(
        cache,
        &root_xprv,
        nonce,
        account_index_0_xpub_bech32,
        encryption_key_ciphertext,
        encryption_key_plaintext,
        aws_region,
        kms_key_id,
    );
    proof {
        let response = r->Ok_0;
        assert(wallet_secrets(
            root,
            data_key,
            response->encrypted_secret_key@,
            response->aes_gcm_nonce@,
            response->kms_ciphertext@,
            response->account_index_0_xpub_bech32@,
        ));
        assert(wallet_created(old(cache)@, cache@, region, key_id, r));
    }
    r
}

/// What to do next to obtain the data key of an encrypted data key.
pub enum DataKeyStep {
    /// Sign with this data key.
    Use(EncryptionKey),
    /// Have the key-management service decrypt the encrypted data key.
    Decrypt,
}

/// The next step towards the data key of an encrypted data key, given what the
/// key-management service decrypted, if it was asked: a cached key is used as
/// it is; otherwise a decrypted key is cached and used; otherwise the service
/// is to be asked.
pub fn next_data_key_step(
    cache: &mut EncryptionKeyCache,
    kms_ciphertext: &[u8],
    decrypted: Option<Vec<u8>>,
) -> (r: DataKeyStep)
    ensures
        old(cache)@.contains_key(kms_ciphertext@) ==> final(cache)@ == old(cache)@ && (r matches DataKeyStep::Use(
            k,
        ) && k@ == old(cache)@[kms_ciphertext@]),
        !old(cache)@.contains_key(kms_ciphertext@) && decrypted is Some ==> final(cache)@ == old(cache)@.insert(
            kms_ciphertext@,
            decrypted->Some_0@,
        ) && (r matches DataKeyStep::Use(k) && k@ == decrypted->Some_0@),
        !old(cache)@.contains_key(kms_ciphertext@) && decrypted is None ==> final(cache)@ == old(cache)@
            && r is Decrypt,
{
    match cache.get(kms_ciphertext) {
        Some(plaintext_key) => DataKeyStep::Use(plaintext_key),
        None => match decrypted {
            Some(p) => {
                let plaintext_key = Arc::new(p);
                let cached_ciphertext = vstd::slice::slice_to_vec(kms_ciphertext);
                cache.insert(cached_ciphertext, Arc::clone(&plaintext_key));
                DataKeyStep::Use(plaintext_key)
            },
            None => DataKeyStep::Decrypt,
        },
    }
}

/// The data key for an encrypted data key: the cached one, or else the one that
/// the key-management service decrypts, which is then cached.
fn obtain_data_key(
    cache: &mut EncryptionKeyCache,
    aws_region: &str,
    aws_access_key_id: &str,
    aws_secret_access_key: &str,
    aws_session_token: &str,
    kms_proxy_port: &str,
    kms_ciphertext: &[u8],
) -> (r: Result<EncryptionKey, RouterError>)
    requires
        data_key_available(old(cache)@, kms_ciphertext@),
    ensures
        final(cache)@ == old(cache)@.insert(kms_ciphertext@, data_key_for(old(cache)@, kms_ciphertext@)),
        r matches Ok(k) && k@ == data_key_for(old(cache)@, kms_ciphertext@),
{
    match next_data_key_step(cache, kms_ciphertext, None) {
        DataKeyStep::Use(plaintext_key) => {
            proof {
                assert(old(cache)@.insert(kms_ciphertext@, old(cache)@[kms_ciphertext@]) =~= old(cache)@);
            }
            Ok(plaintext_key)
        },
        DataKeyStep::Decrypt => {
            let decrypted = match decrypt(
                aws_region,
                aws_access_key_id,
                aws_secret_access_key,
                aws_session_token,
                kms_proxy_port,
                kms_ciphertext,
            ) {
                Ok(v) => v,
                Err(e) => return Err(RouterError::DataKeyDecryption(e)),
            };
            let plaintext = vstd::slice::slice_to_vec(decrypted[0].as_slice());
            match next_data_key_step(cache, kms_ciphertext, Some(plaintext)) {
                DataKeyStep::Use(plaintext_key) => Ok(plaintext_key),
                DataKeyStep::Decrypt => {
                    proof {
                        assert(false);
                    }
                    Ok(Arc::new(Vec::new()))
                },
            }
        },
    }
}

/// Signs a transaction hash with the CIP-1852 key
/// `m/1852'/1815'/account'/role/index` of a root key sealed under a data key:
/// opens the root key, checks it, derives the key and signs. The answer holds
/// the derived extended public key and the signature.
pub fn sign_with_data_key(
    data_key: &[u8],
    tx_hash: &[u8],
    aes_gcm_nonce: &[u8; 12],
    encrypted_secret_key: &[u8],
    cip1852_account: u32,
    cip1852_index: u32,
    cip1852_role: u32,
) -> (r: Result<EnclaveResponse, RouterError>)
    ensures
        signed_with(
            data_key@,
            tx_hash@,
            aes_gcm_nonce@,
            encrypted_secret_key@,
            cip1852_account,
            cip1852_role,
            cip1852_index,
            r,
        ),
{
    let raw = match decrypt_private_key_aes256gcm(encrypted_secret_key, data_key, aes_gcm_nonce) {
        Ok(p) => p,
        Err(e) => return Err(RouterError::PrivateKeyDecryption(e)),
    };
    if raw.len() != 96 {
        return Err(RouterError::PrivateKeyLength(raw.len()));
    }
    let raw_secret_key = bytes_to_array::<96>(&raw);
    let root_xprv = match Ed25519Bip32PrivateKey::from_bytes(raw_secret_key) {
        Ok(k) => k,
        Err(e) => return Err(RouterError::InvalidPrivateKey(e)),
    };
    let account_xprv = root_xprv.derive(1852 | HARDENED).derive(1815 | HARDENED).derive(
        cip1852_account | HARDENED,
    );
    let role_xprv = account_xprv.derive(cip1852_role);
    let child_xprv = role_xprv.derive(cip1852_index);
    let child_xpub = child_xprv.to_public();
    let signer = child_xprv.to_ed25519_secret_key_extended();
    let signature = signer.sign(tx_hash);
    let public_key = child_xpub.as_bytes();
    proof {
        child_xprv.lemma_len();
        assert(public_key@ =~= xprv_public_key(child_xprv@));
        assert(signature@ == ed25519_extended_signature(child_xprv@.subrange(0, 64), tx_hash@));
    }
    Ok(EnclaveResponse::CardanoSignTransactionData { public_key, signature })
}

/// Signs a transaction hash with the CIP-1852 key
/// `m/1852'/1815'/account'/role/index` of a sealed root key: obtains the data
/// key (from the cache, or else from the key-management service, then caching
/// it) and signs with it.
pub fn sign_transaction(
    cache: &mut EncryptionKeyCache,
    tx_hash: &[u8],
    aws_region: &str,
    aws_access_key_id: &str,
    aws_secret_access_key: &str,
    aws_session_token: &str,
    kms_proxy_port: &str,
    aes_gcm_nonce: &[u8; 12],
    encrypted_secret_key: &[u8],
    kms_ciphertext: &[u8],
    cip1852_account: u32,
    cip1852_index: u32,
    cip1852_role: u32,
) -> (r: Result<EnclaveResponse, RouterError>)
    requires
        data_key_available(old(cache)@, kms_ciphertext@),
    ensures
        transaction_signed(
            old(cache)@,
            final(cache)@,
            tx_hash@,
            aes_gcm_nonce@,
            encrypted_secret_key@,
            kms_ciphertext@,
            cip1852_account,
            cip1852_role,
            cip1852_index,
            r,
        ),
{
    let plaintext_encryption_key = match obtain_data_key(
        cache,
        aws_region,
        aws_access_key_id,
        aws_secret_access_key,
        aws_session_token,
        kms_proxy_port,
        kms_ciphertext,
    ) {
        Ok(k) => k,
        Err(e) => return Err(e),
    };
    sign_with_data_key(
        plaintext_encryption_key.as_slice(),
        tx_hash,
        aes_gcm_nonce,
        encrypted_secret_key,
        cip1852_account,
        cip1852_index,
        cip1852_role,
    )
}

/// Answers a request from the host. A signing request must name a data key that
/// is cached or that the key-management service can decrypt (the service gives
/// no answer otherwise); `try_handle_host_request` tests that first.
pub fn handle_host_request(cache: &mut EncryptionKeyCache, request: HostRequest) -> (r: Result<
    EnclaveResponse,
    RouterError,
>)
    requires
        answerable(old(cache)@, request),
    ensures
        answered(old(cache)@, final(cache)@, request, r),
{
    match request {
        HostRequest::CardanoCreateWallet {
            aws_region,
            aws_access_key_id,
            aws_secret_access_key,
            aws_session_token,
            kms_proxy_port,
            kms_key_id,
        } => create_wallet(
            cache,
            aws_region,
            aws_access_key_id,
            aws_secret_access_key,
            aws_session_token,
            kms_proxy_port,
            kms_key_id,
        ),
        HostRequest::CardanoSignTransaction {
            tx_hash,
            aws_region,
            aws_access_key_id,
            aws_secret_access_key,
            aws_session_token,
            kms_proxy_port,
            aes_gcm_nonce,
            encrypted_secret_key,
            kms_ciphertext,
            cip1852_account,
            cip1852_index,
            cip1852_role,
        } => sign_transaction(
            cache,
            tx_hash.as_slice(),
            aws_region.as_str(),
            aws_access_key_id.as_str(),
            aws_secret_access_key.as_str(),
            aws_session_token.as_str(),
            kms_proxy_port.as_str(),
            &aes_gcm_nonce,
            encrypted_secret_key.as_slice(),
            kms_ciphertext.as_slice(),
            cip1852_account,
            cip1852_index,
            cip1852_role,
        ),
    }
}

/// Answers a request from the host when it can be answered, and gives `None`,
/// with the cache unchanged, for a signing request whose data key is neither
/// cached nor decryptable by the key-management service.
pub fn try_handle_host_request(cache: &mut EncryptionKeyCache, request: HostRequest) -> (r: Option<
    Result<EnclaveResponse, RouterError>,
>)
    ensures
        match r {
            None => !answerable(old(cache)@, request) && final(cache)@ == old(cache)@,
            Some(x) => answered(old(cache)@, final(cache)@, request, x),
        },
{
    let available = match &request {
        HostRequest::CardanoCreateWallet { .. } => true,
        HostRequest::CardanoSignTransaction { kms_ciphertext, .. } => {
            cache.get(kms_ciphertext.as_slice()).is_some() || mock_unwrap_key(kms_ciphertext.as_slice()).is_some()
        },
    };
    if !available {
        return None;
    }
    Some(handle_host_request(cache, request))
}

/// A created wallet can be signed with: given the secrets behind a created
/// wallet, and a cache that holds the wallet's data key under its encrypted form
/// or nothing under it, the data key is available and is the wallet's, and
/// signing with the wallet's sealed root key and nonce gives the extended public
/// key of the CIP-1852 key of the root key and the signature under its secret.
pub proof fn lemma_created_wallet_signs(
    root: Seq<u8>,
    data_key: Seq<u8>,
    encrypted_secret_key: Seq<u8>,
    nonce: Seq<u8>,
    kms_ciphertext: Seq<u8>,
    account_xpub: Seq<char>,
    cache: Map<Seq<u8>, Seq<u8>>,
    tx_hash: Seq<u8>,
    account: u32,
    role: u32,
    index: u32,
)
    requires
        wallet_secrets(root, data_key, encrypted_secret_key, nonce, kms_ciphertext, account_xpub),
        cache.contains_key(kms_ciphertext) ==> cache[kms_ciphertext] == data_key,
    ensures
        data_key_available(cache, kms_ciphertext),
        data_key_for(cache, kms_ciphertext) == data_key,
        sign_result(
            data_key,
            nonce,
            encrypted_secret_key,
            tx_hash,
            account,
            role,
            index,
        ) == Ok::<(Seq<u8>, Seq<u8>), SignFailure>(
            (
                xprv_public_key(cip1852_key(root, account, role, index)),
                ed25519_extended_signature(cip1852_key(root, account, role, index).subrange(0, 64), tx_hash),
            ),
        ),
{
}

/// Answering a request never drops a cached data key, and answering a signing
/// request never changes one: a data key cached before is cached after, and,
/// for a signing request, under the same encrypted key with the same value.
pub proof fn lemma_answer_keeps_cached_keys(
    before: Map<Seq<u8>, Seq<u8>>,
    after: Map<Seq<u8>, Seq<u8>>,
    request: HostRequest,
    r: Result<EnclaveResponse, RouterError>,
    k: Seq<u8>,
)
    requires
        answered(before, after, request, r),
        before.contains_key(k),
    ensures
        after.contains_key(k),
        request is CardanoSignTransaction ==> after[k] == before[k],
{
    match request {
        HostRequest::CardanoCreateWallet { .. } => {
            match r {
                Ok(EnclaveResponse::CardanoCreateWalletData {
                    encrypted_secret_key,
                    aes_gcm_nonce,
                    kms_ciphertext,
                    account_index_0_xpub_bech32,
                    ..
                }) => {
                    let (root, data_key) = choose|root: Seq<u8>, data_key: Seq<u8>|
                        #[trigger] wallet_secrets(
                            root,
                            data_key,
                            encrypted_secret_key@,
                            aes_gcm_nonce@,
                            kms_ciphertext@,
                            account_index_0_xpub_bech32@,
                        ) && after == before.insert(kms_ciphertext@, data_key);
                    assert(after == before.insert(kms_ciphertext@, data_key));
                },
                _ => {},
            }
        },
        HostRequest::CardanoSignTransaction { .. } => {},
    }
}

/// The soft child, by role and then by index, of an extended public key given as
/// bech32 text, if the text is a public key and both derivations succeed.
pub open spec fn account_child_public(account_xpub: Seq<char>, role: u32, index: u32) -> Option<Seq<u8>> {
    match public_key_from_text(account_xpub) {
        Some(x) => match xpub_derived(x, role) {
            Some(m) => xpub_derived(m, index),
            None => None,
        },
        None => None,
    }
}

/// Signing with a created wallet uses a child of the account public key the
/// wallet advertised: signing with the wallet's data key, sealed root key and
/// nonce, for account 0 and a soft role and index, answers with the public key
/// that soft derivation of the advertised account key (by role, then index)
/// gives, where the account key, the role key and the signing key each have a
/// scalar below 2^255 (byte 31 below `0x80`).
pub proof fn lemma_created_wallet_signs_with_account_child(
    root: Seq<u8>,
    data_key: Seq<u8>,
    encrypted_secret_key: Seq<u8>,
    nonce: Seq<u8>,
    kms_ciphertext: Seq<u8>,
    account_xpub: Seq<char>,
    tx_hash: Seq<u8>,
    role: u32,
    index: u32,
    r: Result<EnclaveResponse, RouterError>,
)
    requires
        wallet_secrets(root, data_key, encrypted_secret_key, nonce, kms_ciphertext, account_xpub),
        signed_with(data_key, tx_hash, nonce, encrypted_secret_key, 0, role, index, r),
        role < HARDENED,
        index < HARDENED,
        cip1852_account_key(root, 0)[31] < 0x80,
        xprv_derived(cip1852_account_key(root, 0), role)[31] < 0x80,
        cip1852_key(root, 0, role, index)[31] < 0x80,
    ensures
        r matches Ok(EnclaveResponse::CardanoSignTransactionData { public_key, .. })
            && account_child_public(account_xpub, role, index) == Some(public_key@),
{
    lemma_created_wallet_signs(
        root,
        data_key,
        encrypted_secret_key,
        nonce,
        kms_ciphertext,
        account_xpub,
        Map::empty(),
        tx_hash,
        0,
        role,
        index,
    );
    assert(soft_path_matches(root, 0, role, index));
}

/// Two failures of signing report the same step with the same payload; of an
/// AEAD failure only the step is compared (`aes_gcm::Error` carries no data).
pub open spec fn same_sign_error(e1: RouterError, e2: RouterError) -> bool {
    match (e1, e2) {
        (
            RouterError::PrivateKeyDecryption(Aes256GcmError::InvalidKeyLength(a)),
            RouterError::PrivateKeyDecryption(Aes256GcmError::InvalidKeyLength(b)),
        ) => a == b,
        (
            RouterError::PrivateKeyDecryption(Aes256GcmError::Aead(_)),
            RouterError::PrivateKeyDecryption(Aes256GcmError::Aead(_)),
        ) => true,
        (RouterError::PrivateKeyLength(a), RouterError::PrivateKeyLength(b)) => a == b,
        (RouterError::InvalidPrivateKey(a), RouterError::InvalidPrivateKey(b)) => a == b,
        _ => false,
    }
}

/// Two answers to a signing request agree: both carry the same public key and
/// signature, or both fail at the same step with the same payload.
pub open spec fn same_sign_answer(r1: Result<EnclaveResponse, RouterError>, r2: Result<EnclaveResponse, RouterError>) -> bool {
    match (r1, r2) {
        (
            Ok(EnclaveResponse::CardanoSignTransactionData { public_key: p1, signature: s1 }),
            Ok(EnclaveResponse::CardanoSignTransactionData { public_key: p2, signature: s2 }),
        ) => p1@ == p2@ && s1@ == s2@,
        (Err(e1), Err(e2)) => same_sign_error(e1, e2),
        _ => false,
    }
}

/// Signing is deterministic: two answers to the same signing request, made with
/// the same data key for its encrypted data key (cached or decrypted), agree,
/// whatever else the two caches hold.
pub proof fn lemma_signing_is_deterministic(
    before1: Map<Seq<u8>, Seq<u8>>,
    after1: Map<Seq<u8>, Seq<u8>>,
    before2: Map<Seq<u8>, Seq<u8>>,
    after2: Map<Seq<u8>, Seq<u8>>,
    request: HostRequest,
    r1: Result<EnclaveResponse, RouterError>,
    r2: Result<EnclaveResponse, RouterError>,
)
    requires
        request is CardanoSignTransaction,
        answered(before1, after1, request, r1),
        answered(before2, after2, request, r2),
        data_key_for(before1, request->kms_ciphertext@) == data_key_for(before2, request->kms_ciphertext@),
    ensures
        same_sign_answer(r1, r2),
{
    match request {
        HostRequest::CardanoSignTransaction {
            tx_hash,
            aes_gcm_nonce,
            encrypted_secret_key,
            kms_ciphertext,
            cip1852_account,
            cip1852_index,
            cip1852_role,
            ..
        } => {
            let data_key = data_key_for(before1, kms_ciphertext@);
            match sign_result(
                data_key,
                aes_gcm_nonce@,
                encrypted_secret_key@,
                tx_hash@,
                cip1852_account,
                cip1852_role,
                cip1852_index,
            ) {
                Ok(_) => {},
                Err(f) => {
                    match f {
                        SignFailure::DataKeyLength(_) => {},
                        SignFailure::Unsealing => {},
                        SignFailure::SecretKeyLength(_) => {},
                        SignFailure::PrivateKey(_) => {},
                    }
                },
            }
        },
        _ => {},
    }
}

/// Signing uses the CIP-1852 key `m/1852'/1815'/account'/role/index`: whenever
/// the data key opens the sealed bytes to a valid 96-byte root key, the answer
/// carries the extended public key of the key reached from the root by the
/// hardened steps 1852, 1815 and the account, then the role, then the index,
/// and that key's signature of the transaction hash.
pub proof fn lemma_signing_key_is_the_cip1852_path(
    data_key: Seq<u8>,
    tx_hash: Seq<u8>,
    nonce: Seq<u8>,
    encrypted_secret_key: Seq<u8>,
    account: u32,
    role: u32,
    index: u32,
    root: Seq<u8>,
    r: Result<EnclaveResponse, RouterError>,
)
    requires
        signed_with(data_key, tx_hash, nonce, encrypted_secret_key, account, role, index, r),
        data_key.len() == 32,
        aes256gcm_open(data_key, nonce, encrypted_secret_key) == Some(root),
        root.len() == 96,
        extended_scalar_valid(root),
    ensures
        ({
            let child = xprv_derived(
                xprv_derived(
                    xprv_derived(xprv_derived(xprv_derived(root, 1852u32 | HARDENED), 1815u32 | HARDENED), account | HARDENED),
                    role,
                ),
                index,
            );
            r matches Ok(EnclaveResponse::CardanoSignTransactionData { public_key, signature })
                && public_key@ == xprv_public_key(child)
                && signature@ == ed25519_extended_signature(child.subrange(0, 64), tx_hash)
        }),
{
}

/// Answering a signing request uses the CIP-1852 key of the request's account,
/// role and index, below the root key that the request's data key opens.
pub proof fn lemma_answered_signing_key_is_the_cip1852_path(
    before: Map<Seq<u8>, Seq<u8>>,
    after: Map<Seq<u8>, Seq<u8>>,
    request: HostRequest,
    r: Result<EnclaveResponse, RouterError>,
    root: Seq<u8>,
)
    requires
        request is CardanoSignTransaction,
        answered(before, after, request, r),
        data_key_for(before, request->kms_ciphertext@).len() == 32,
        aes256gcm_open(
            data_key_for(before, request->kms_ciphertext@),
            request->aes_gcm_nonce@,
            request->encrypted_secret_key@,
        ) == Some(root),
        root.len() == 96,
        extended_scalar_valid(root),
    ensures
        ({
            let child = xprv_derived(
                xprv_derived(
                    xprv_derived(
                        xprv_derived(xprv_derived(root, 1852u32 | HARDENED), 1815u32 | HARDENED),
                        request->cip1852_account | HARDENED,
                    ),
                    request->cip1852_role,
                ),
                request->cip1852_index,
            );
            r matches Ok(EnclaveResponse::CardanoSignTransactionData { public_key, signature })
                && public_key@ == xprv_public_key(child)
                && signature@ == ed25519_extended_signature(child.subrange(0, 64), request->tx_hash@)
        }),
{
    lemma_signing_key_is_the_cip1852_path(
        data_key_for(before, request->kms_ciphertext@),
        request->tx_hash@,
        request->aes_gcm_nonce@,
        request->encrypted_secret_key@,
        request->cip1852_account,
        request->cip1852_role,
        request->cip1852_index,
        root,
        r,
    );
}

/// A created wallet advertises the account key `m/1852'/1815'/0'`: the bech32
/// text of the response is that of the extended public key of the key reached
/// from the sealed root key by the hardened steps 1852, 1815 and 0, and it
/// decodes back to that key.
pub proof fn lemma_created_wallet_advertises_account_zero(
    root: Seq<u8>,
    data_key: Seq<u8>,
    encrypted_secret_key: Seq<u8>,
    nonce: Seq<u8>,
    kms_ciphertext: Seq<u8>,
    account_xpub: Seq<char>,
)
    requires
        wallet_secrets(root, data_key, encrypted_secret_key, nonce, kms_ciphertext, account_xpub),
    ensures
        ({
            let account_key = xprv_derived(
                xprv_derived(xprv_derived(root, 1852u32 | HARDENED), 1815u32 | HARDENED),
                HARDENED,
            );
            &&& account_xpub == bech32_encoding(xpub_hrp(), xprv_public_key(account_key))
            &&& public_key_from_text(account_xpub) == Some(xprv_public_key(account_key))
        }),
{
    assert(0u32 | HARDENED == HARDENED) by (bit_vector);
}

} // verus!
