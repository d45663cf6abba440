//! The stand-in for the key-management service used when no service is
//! reachable: data keys are wrapped with AES-256-GCM under a fixed master key,
//! the 12-byte nonce written before the sealed key.

use vstd::prelude::*;
use crate::entropy::random_bytes;
use crate::kmstool::KmsToolError;
use crate::aes256gcm::{aes256gcm_decrypt, aes256gcm_encrypt, aes256gcm_open, aes256gcm_seal};

verus! {

/// The fixed master key of the stand-in service.
pub fn mock_kms_master_key() -> (r: [u8; 32])
    ensures
        r@ == mock_master_key(),
{
    let r = [7u8; 32];
    assert(r@ =~= mock_master_key());
    r
}

/// The bytes of the master key.
pub open spec fn mock_master_key() -> Seq<u8> {
    Seq::new(32, |i: int| 7u8)
}

/// What the stand-in service recovers from a wrapped key: the nonce is the first
/// 12 bytes, the sealed key the rest.
pub open spec fn mock_unwrap(ciphertext: Seq<u8>) -> Option<Seq<u8>> {
    if ciphertext.len() < 12 {
        None
    } else {
        aes256gcm_open(mock_master_key(), ciphertext.subrange(0, 12), ciphertext.subrange(12, ciphertext.len() as int))
    }
}

/// The wrapped form of a data key under a nonce.
pub open spec fn mock_wrap(nonce: Seq<u8>, plaintext: Seq<u8>) -> Seq<u8> {
    nonce + aes256gcm_seal(mock_master_key(), nonce, plaintext)
}

/// `std::io::Error::other`, wrapping a failure of the random source.
#[verifier::external_body]
fn io_error_from_random(e: ::getrandom::Error) -> std::io::Error {
    std::io::Error::other(e.to_string())
}

/// Wraps a data key under a nonce: the nonce followed by the sealed key.
pub fn mock_wrap_key(plaintext: &[u8; 32], nonce: &[u8; 12]) -> (r: Vec<u8>)
    ensures
        r@ == mock_wrap(nonce@, plaintext@),
        r@.len() == 12 + 32 + 16,
        mock_unwrap(r@) == Some(plaintext@),
{
    let key = mock_kms_master_key();
    let sealed = match aes256gcm_encrypt(&key, nonce, plaintext.as_slice()) {
        Ok(c) => c,
        Err(_) => {
            proof {
                assert(false);
            }
            Vec::new()
        },
    };
    let mut ciphertext: Vec<u8> = vstd::slice::slice_to_vec(nonce.as_slice());
    let mut rest = sealed;
    ciphertext.append(&mut rest);
    proof {
        assert(ciphertext@.subrange(0, 12) =~= nonce@);
        assert(ciphertext@.subrange(12, ciphertext@.len() as int) =~= aes256gcm_seal(mock_master_key(), nonce@, plaintext@));
    }
    ciphertext
}

/// Recovers a data key wrapped by the stand-in service, or nothing when the
/// bytes are shorter than a nonce or the tag does not verify.
pub fn mock_unwrap_key(ciphertext: &[u8]) -> (r: Option<Vec<u8>>)
    ensures
        match r {
            Some(p) => mock_unwrap(ciphertext@) == Some(p@),
            None => mock_unwrap(ciphertext@) is None,
        },
{
    if ciphertext.len() < 12 {
        return None;
    }
    let key = mock_kms_master_key();
    let nonce = vstd::slice::slice_subrange(ciphertext, 0, 12);
    let sealed = vstd::slice::slice_subrange(ciphertext, 12, ciphertext.len());
    match aes256gcm_decrypt(&key, nonce, sealed) {
        Ok(p) => Some(p),
        Err(_) => None,
    }
}

/// Generates a data key: 32 random bytes, wrapped under a random nonce. The
/// result is `[ciphertext, plaintext]`, and the ciphertext unwraps to the
/// plaintext. The service parameters are not used by the stand-in.
pub fn genkey(
    _region: &str,
    _access_key_id: &str,
    _secret_access_key: &str,
    _session_token: &str,
    _proxy_port: &str,
    _key_id: &str,
    _key_spec: &str,
) -> (r: Result<[Vec<u8>; 2], KmsToolError>)
    ensures
        r matches Ok(v) ==> v@[1]@.len() == 32,
        r matches Ok(v) ==> v@[0]@.len() == 12 + 32 + 16,
        r matches Ok(v) ==> mock_unwrap(v@[0]@) == Some(v@[1]@),
        r matches Ok(v) ==> v@[0]@ == mock_wrap(v@[0]@.subrange(0, 12), v@[1]@),
        r matches Err(e) ==> e is Io,
{
    let plaintext = match random_bytes::<32>() {
        Ok(b) => b,
        Err(e) => return Err(KmsToolError::Io(io_error_from_random(e))),
    };
    let nonce = match random_bytes::<12>() {
        Ok(b) => b,
        Err(e) => return Err(KmsToolError::Io(io_error_from_random(e))),
    };
    let ciphertext = mock_wrap_key(&plaintext, &nonce);
    let plain: Vec<u8> = vstd::slice::slice_to_vec(plaintext.as_slice());
    proof {
        assert(ciphertext@.subrange(0, 12) =~= nonce@);
    }
    Ok([ciphertext, plain])
}

/// Unwraps a data key. The ciphertext must be at least a nonce long and must
/// have been wrapped under the master key (the service does not answer
/// otherwise); `decrypt_checked` tests both first.
pub fn decrypt(
    _region: &str,
    _access_key_id: &str,
    _secret_access_key: &str,
    _session_token: &str,
    _proxy_port: &str,
    ciphertext: &[u8],
) -> (r: Result<[Vec<u8>; 1], KmsToolError>)
    requires
        ciphertext@.len() >= 12,
        mock_unwrap(ciphertext@) is Some,
    ensures
        r matches Ok(v) && Some(v@[0]@) == mock_unwrap(ciphertext@),
{
    match mock_unwrap_key(ciphertext) {
        Some(p) => Ok([p]),
        None => {
            proof {
                assert(false);
            }
            Ok([Vec::new()])
        },
    }
}

/// Unwraps a data key when the ciphertext is one that the service answers for,
/// and says `None` otherwise (too short, or not wrapped under the master key).
pub fn decrypt_checked(
    region: &str,
    access_key_id: &str,
    secret_access_key: &str,
    session_token: &str,
    proxy_port: &str,
    ciphertext: &[u8],
) -> (r: Option<[Vec<u8>; 1]>)
    ensures
        match r {
            Some(v) => Some(v@[0]@) == mock_unwrap(ciphertext@),
            None => mock_unwrap(ciphertext@) is None,
        },
{
    if ciphertext.len() < 12 {
        return None;
    }
    match mock_unwrap_key(ciphertext) {
        None => None,
        Some(_) => match decrypt(region, access_key_id, secret_access_key, session_token, proxy_port, ciphertext) {
            Ok(v) => Some(v),
            Err(_) => None,
        },
    }
}

} // verus!
