//! Ed25519 signing with an extended secret.

use vstd::prelude::*;
use crate::ed25519_bip32::{
    ed25519_extended_public, extended_scalar_valid, xprv_public, Ed25519Bip32PrivateKey,
};

verus! {

/// The 64-byte Ed25519 signature of a message under a 64-byte extended secret,
/// as `ed25519_bip32::XPrv::sign` computes it (`signature_extended`, which does
/// not check the secret's bits).
pub uninterp spec fn ed25519_extended_signature(secret: Seq<u8>, msg: Seq<u8>) -> Seq<u8>;

/// Why 64 bytes are not an Ed25519 extended secret.
#[derive(Debug, Clone, Copy, PartialEq, Eq)]
pub enum SecretKeyExtendedError {
    InvalidBitTweaks,
}

/// `ed25519_bip32::XPrv::sign` with the given extended secret (the chain code
/// plays no part in signing): the named signature.
#[verifier::external_body]
fn xprv_sign(secret: &[u8; 64], msg: &[u8]) -> (r: [u8; 64])
    ensures
        r@ == ed25519_extended_signature(secret@, msg@),
{
    let key = ::ed25519_bip32::XPrv::from_extended_and_chaincode(secret, &[0u8; 32]);
    *key.sign::<()>(msg).to_bytes()
}

/// An Ed25519 extended secret key: 64 bytes, the secret scalar followed by the
/// nonce key.
pub struct SecretKeyExtended {
    bytes: [u8; 64],
}

impl View for SecretKeyExtended {
    type V = Seq<u8>;

    closed spec fn view(&self) -> Seq<u8> {
        self.bytes@
    }
}

impl SecretKeyExtended {
    /// Accepts 64 bytes as an extended secret when the two highest bits of byte 31
    /// are `01` and the three lowest bits of byte 0 are clear.
    pub fn from_bytes(bytes: [u8; 64]) -> (r: Result<Self, SecretKeyExtendedError>)
        ensures
            r is Ok <==> extended_scalar_valid(bytes@),
            r matches Ok(k) ==> k@ == bytes@,
            r matches Err(e) ==> e == SecretKeyExtendedError::InvalidBitTweaks,
    {
        if (bytes[31] & 0xc0u8) == 0x40u8 && (bytes[0] & 0x07u8) == 0u8 {
            Ok(SecretKeyExtended { bytes })
        } else {
            Err(SecretKeyExtendedError::InvalidBitTweaks)
        }
    }

    /// The 32-byte Ed25519 public key of the secret.
    pub fn public_key(&self) -> (r: [u8; 32])
        ensures
            r@ == ed25519_extended_public(self@),
    {
        let mut key = [0u8; 96];
        let mut i: usize = 0;
        while i < 64
            invariant
                i <= 64,
                key@.len() == 96,
                forall|j: int| 0 <= j < i ==> key@[j] == self.bytes@[j],
            decreases 64 - i,
        {
            key[i] = self.bytes[i];
            i = i + 1;
        }
        let public = xprv_public(&key);
        let mut r = [0u8; 32];
        let mut i: usize = 0;
        while i < 32
            invariant
                i <= 32,
                r@.len() == 32,
                public@.len() == 64,
                forall|j: int| 0 <= j < i ==> r@[j] == public@[j],
            decreases 32 - i,
        {
            r[i] = public[i];
            i = i + 1;
        }
        proof {
            assert(key@.subrange(0, 64) =~= self.bytes@);
            assert(r@ =~= public@.subrange(0, 32));
        }
        r
    }

    /// The 64-byte Ed25519 signature of `msg`.
    pub fn sign(&self, msg: &[u8]) -> (r: Vec<u8>)
        ensures
            r@ == ed25519_extended_signature(self@, msg@),
            r@.len() == 64,
    {
        let sig = xprv_sign(&self.bytes, msg);
        vstd::slice::slice_to_vec(sig.as_slice())
    }
}

impl Ed25519Bip32PrivateKey {
    /// The extended secret (first 64 bytes) as a signing key, taken as it is,
    /// whatever its bits; its public key (`ed25519_extended_public` of it) is the
    /// Ed25519 point with which `to_public` begins.
    pub fn to_ed25519_secret_key_extended(&self) -> (r: SecretKeyExtended)
        ensures
            r@ == self@.subrange(0, 64),
    {
        SecretKeyExtended { bytes: self.extended_secret_key() }
    }
}

} // verus!
