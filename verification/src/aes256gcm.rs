//! AES-256-GCM sealing of secret material, through the `aes-gcm` crate.

use vstd::prelude::*;
use crate::ed25519_bip32::sub_array;
use ::aes_gcm::aead::{Aead, KeyInit};

verus! {

/// The AES-256-GCM sealing (ciphertext followed by the 16-byte tag) that
/// `aes_gcm::Aes256Gcm::encrypt` computes, without associated data.
pub uninterp spec fn aes256gcm_seal(key: Seq<u8>, nonce: Seq<u8>, plaintext: Seq<u8>) -> Seq<u8>;

/// What `aes_gcm::Aes256Gcm::decrypt` recovers from sealed bytes, without
/// associated data: the plaintext, or nothing when the tag does not verify.
pub uninterp spec fn aes256gcm_open(key: Seq<u8>, nonce: Seq<u8>, sealed: Seq<u8>) -> Option<Seq<u8>>;

/// The longest plaintext that AES-GCM seals (2^36 bytes).
pub open spec fn max_plaintext_len() -> nat {
    0x10_0000_0000
}

/// `Aes256Gcm::encrypt` (key from 32 bytes, 12-byte nonce, no associated data).
/// It fails exactly when the plaintext is longer than 2^36 bytes; the result is
/// the named sealing, 16 bytes longer than the plaintext, and decrypting it with
/// the same key and nonce gives the plaintext back.
#[verifier::external_body]
pub(crate) fn aes256gcm_encrypt(key: &[u8; 32], nonce: &[u8; 12], plaintext: &[u8]) -> (r: Result<Vec<u8>, ::aes_gcm::Error>)
    ensures
        r is Ok <==> plaintext@.len() <= max_plaintext_len(),
        r matches Ok(c) ==> c@ == aes256gcm_seal(key@, nonce@, plaintext@),
        r matches Ok(c) ==> c@.len() == plaintext@.len() + 16,
        r matches Ok(c) ==> aes256gcm_open(key@, nonce@, c@) == Some(plaintext@),
{
    let cipher = ::aes_gcm::Aes256Gcm::new(::aes_gcm::Key::<::aes_gcm::Aes256Gcm>::from_slice(key));
    cipher.encrypt(::aes_gcm::Nonce::from_slice(nonce), plaintext)
}

/// `Aes256Gcm::decrypt` (key from 32 bytes, 12-byte nonce, no associated data):
/// the named opening.
#[verifier::external_body]
pub(crate) fn aes256gcm_decrypt(key: &[u8; 32], nonce: &[u8], sealed: &[u8]) -> (r: Result<Vec<u8>, ::aes_gcm::Error>)
    requires
        nonce@.len() == 12,
    ensures
        match r {
            Ok(p) => aes256gcm_open(key@, nonce@, sealed@) == Some(p@),
            Err(_) => aes256gcm_open(key@, nonce@, sealed@) is None,
        },
{
    let cipher = ::aes_gcm::Aes256Gcm::new(::aes_gcm::Key::<::aes_gcm::Aes256Gcm>::from_slice(key));
    cipher.decrypt(::aes_gcm::Nonce::from_slice(nonce), sealed)
}

/// Why secret material could not be sealed or opened.
#[derive(Debug)]
pub enum Aes256GcmError {
    /// The key is not 32 bytes long; its length.
    InvalidKeyLength(usize),
    /// The AEAD operation failed: the plaintext is too long to seal, or the
    /// sealed bytes do not verify under the key and nonce.
    Aead(::aes_gcm::Error),
}

/// Seals a private key under a 32-byte data key and a 12-byte nonce. A key of
/// another length is refused; decrypting the result with the same key and nonce
/// gives the private key back.
pub fn encrypt_private_key_aes256gcm(plaintext: &[u8], key: &[u8], nonce: &[u8; 12]) -> (r: Result<Vec<u8>, Aes256GcmError>)
    ensures
        key@.len() != 32 ==> (r matches Err(Aes256GcmError::InvalidKeyLength(n)) && n == key@.len()),
        key@.len() == 32 && plaintext@.len() > max_plaintext_len() ==> r matches Err(Aes256GcmError::Aead(_)),
        key@.len() == 32 && plaintext@.len() <= max_plaintext_len() ==> r is Ok,
        r matches Ok(c) ==> c@ == aes256gcm_seal(key@, nonce@, plaintext@),
        r matches Ok(c) ==> c@.len() == plaintext@.len() + 16,
        r matches Ok(c) ==> aes256gcm_open(key@, nonce@, c@) == Some(plaintext@),
{
    if key.len() != 32 {
        return Err(Aes256GcmError::InvalidKeyLength(key.len()));
    }
    let k = sub_array::<32>(key, 0);
    proof {
        assert(key@.subrange(0, 32) =~= key@);
    }
    match aes256gcm_encrypt(&k, nonce, plaintext) {
        Ok(c) => Ok(c),
        Err(e) => Err(Aes256GcmError::Aead(e)),
    }
}

/// Opens a private key sealed under a 32-byte data key and a 12-byte nonce. A
/// key of another length is refused; otherwise the result is the plaintext, or
/// an error when the sealed bytes do not verify.
pub fn decrypt_private_key_aes256gcm(ciphertext: &[u8], key: &[u8], nonce: &[u8; 12]) -> (r: Result<Vec<u8>, Aes256GcmError>)
    ensures
        key@.len() != 32 ==> (r matches Err(Aes256GcmError::InvalidKeyLength(n)) && n == key@.len()),
        key@.len() == 32 ==> match aes256gcm_open(key@, nonce@, ciphertext@) {
            Some(p) => r matches Ok(q) && q@ == p,
            None => r matches Err(Aes256GcmError::Aead(_)),
        },
{
    if key.len() != 32 {
        return Err(Aes256GcmError::InvalidKeyLength(key.len()));
    }
    let k = sub_array::<32>(key, 0);
    proof {
        assert(key@.subrange(0, 32) =~= key@);
    }
    match aes256gcm_decrypt(&k, nonce.as_slice(), ciphertext) {
        Ok(p) => Ok(p),
        Err(e) => Err(Aes256GcmError::Aead(e)),
    }
}

} // verus!
