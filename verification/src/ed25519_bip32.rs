//! Ed25519-BIP32 extended keys held as plain bytes, with derivation through the
//! `ed25519-bip32` crate (scheme V2) and bech32 text through the `bech32` crate.

use vstd::prelude::*;
use crate::encoding::{
    bech32_decode, bech32_decoding, bech32_encode, bech32_encoded_len, bech32_encoding,
    hrp_eq, hrp_matches, lowercase_hrp, no_uppercase, starts_with_hrp,
};
use crate::entropy::random_bytes;

verus! {

/// The bit that marks a hardened derivation index.
pub const HARDENED: u32 = 0x8000_0000;

/// Why a 96-byte extended private key was refused.
#[derive(Debug, Clone, Copy, PartialEq, Eq)]
pub enum PrivateKeyError {
    LengthInvalid(usize),
    HighestBitsInvalid,
    LowestBitsInvalid,
}

/// Why a public derivation failed.
#[derive(Debug, Clone, Copy, PartialEq, Eq)]
pub enum DerivationError {
    InvalidAddition,
    ExpectedSoftDerivation,
}

/// Why a bech32 string was not accepted as a key.
#[derive(Debug)]
pub enum FromBech32Error {
    InvalidBech32(::bech32::DecodeError),
    InvalidBech32Hrp,
    UnexpectedBech32Length,
    InvalidPrivateKey(PrivateKeyError),
}

// ---------------------------------------------------------------------------
// Specifications
// ---------------------------------------------------------------------------

/// The bytes of a checked key, or the reason it was refused.
pub open spec fn array_result_view(r: Result<[u8; 96], PrivateKeyError>) -> Result<Seq<u8>, PrivateKeyError> {
    match r {
        Ok(k) => Ok(k@),
        Err(e) => Err(e),
    }
}

/// The bytes of a checked key, or the reason it was refused.
pub open spec fn key_result_view(r: Result<Ed25519Bip32PrivateKey, PrivateKeyError>) -> Result<Seq<u8>, PrivateKeyError> {
    match r {
        Ok(k) => Ok(k@),
        Err(e) => Err(e),
    }
}

/// The two highest bits of the scalar (byte 31) are `01`.
pub open spec fn highest_bits_valid(b: Seq<u8>) -> bool {
    b[31] & 0xc0u8 == 0x40u8
}

/// The three lowest bits of the scalar (byte 0) are clear.
pub open spec fn lowest_bits_valid(b: Seq<u8>) -> bool {
    b[0] & 0x07u8 == 0u8
}

/// The shape of an Ed25519 extended secret scalar.
pub open spec fn extended_scalar_valid(b: Seq<u8>) -> bool {
    highest_bits_valid(b) && lowest_bits_valid(b)
}

/// What `Ed25519Bip32PrivateKey::from_bytes` gives for 96 bytes.
pub open spec fn private_key_check(b: Seq<u8>) -> Result<Seq<u8>, PrivateKeyError> {
    if !highest_bits_valid(b) {
        Err(PrivateKeyError::HighestBitsInvalid)
    } else if !lowest_bits_valid(b) {
        Err(PrivateKeyError::LowestBitsInvalid)
    } else {
        Ok(b)
    }
}

/// The bytes after the normalisation that a fresh key goes through: the three
/// lowest bits of byte 0 cleared, the three highest bits of byte 31 set to `010`.
pub open spec fn normalized_force3rd(b: Seq<u8>) -> Seq<u8> {
    b.update(0, b[0] & 0xf8u8).update(31, (b[31] & 0x1fu8) | 0x40u8)
}

/// The child private key (96 bytes) that `XPrv::derive` (scheme V2) makes.
pub uninterp spec fn xprv_derived(xprv: Seq<u8>, index: u32) -> Seq<u8>;

/// The child public key (64 bytes) that `XPub::derive` (scheme V2) makes from a
/// soft index, or nothing when the point addition fails.
pub uninterp spec fn xpub_derived(xpub: Seq<u8>, index: u32) -> Option<Seq<u8>>;

/// The 32-byte Ed25519 public key of a 64-byte extended secret, as
/// `ed25519_bip32::mk_public_key` computes it (and `XPrv::public` from the first
/// 64 bytes of a key).
pub uninterp spec fn ed25519_extended_public(secret: Seq<u8>) -> Seq<u8>;

/// The 64-byte extended public key of an extended private key: its Ed25519
/// public point followed by its chain code.
pub open spec fn xprv_public_key(xprv: Seq<u8>) -> Seq<u8> {
    ed25519_extended_public(xprv.subrange(0, 64)) + xprv.subrange(64, 96)
}

/// The human-readable part of extended public keys.
pub open spec fn xpub_hrp() -> Seq<char> {
    seq!['x', 'p', 'u', 'b']
}

/// The human-readable part of extended private keys.
pub open spec fn xprv_hrp() -> Seq<char> {
    seq!['x', 'p', 'r', 'v']
}

/// The public key bytes that a bech32 string stands for, if any.
pub open spec fn public_key_from_text(s: Seq<char>) -> Option<Seq<u8>> {
    match bech32_decoding(s) {
        Some((h, d)) => if hrp_matches(h, xpub_hrp()) && d.len() == 64 {
            Some(d)
        } else {
            None
        },
        None => None,
    }
}

/// The private key bytes that a bech32 string stands for, if any.
pub open spec fn private_key_from_text(s: Seq<char>) -> Option<Seq<u8>> {
    match bech32_decoding(s) {
        Some((h, d)) => if hrp_matches(h, xprv_hrp()) && d.len() == 96 && extended_scalar_valid(d) {
            Some(d)
        } else {
            None
        },
        None => None,
    }
}

// ---------------------------------------------------------------------------
// Calls into `ed25519-bip32`
// ---------------------------------------------------------------------------

/// `ed25519_bip32::XPrv::from_bytes_verified`: checks the two highest bits of
/// byte 31 (`01`), then the three lowest bits of byte 0 (clear), and keeps the
/// bytes unchanged when both hold.
#[verifier::external_body]
fn xprv_from_bytes_verified(bytes: [u8; 96]) -> (r: Result<[u8; 96], PrivateKeyError>)
    ensures
        private_key_check(bytes@) == array_result_view(r),
{
    match ::ed25519_bip32::XPrv::from_bytes_verified(bytes) {
        Ok(k) => Ok(k.into()),
        Err(::ed25519_bip32::PrivateKeyError::LengthInvalid(n)) => Err(PrivateKeyError::LengthInvalid(n)),
        Err(::ed25519_bip32::PrivateKeyError::HighestBitsInvalid) => Err(PrivateKeyError::HighestBitsInvalid),
        Err(::ed25519_bip32::PrivateKeyError::LowestBitsInvalid) => Err(PrivateKeyError::LowestBitsInvalid),
    }
}

/// `ed25519_bip32::XPrv::normalize_bytes_force3rd`: clears the three lowest bits
/// of byte 0, clears the three highest bits of byte 31 and then sets the second
/// highest; the other bytes are kept.
#[verifier::external_body]
fn xprv_normalize_bytes_force3rd(bytes: [u8; 96]) -> (r: [u8; 96])
    ensures
        r@ == normalized_force3rd(bytes@),
{
    ::ed25519_bip32::XPrv::normalize_bytes_force3rd(bytes).into()
}

/// `ed25519_bip32::XPrv::derive` with scheme V2, on the key made of the given
/// 64-byte extended secret and 32-byte chain code. Claims that the child is the
/// named derivation of the parent bytes, and, for a soft index, the property the
/// crate documents for soft derivation ("given the parent public key, one can
/// derive all softly derived children public key"): `XPub::derive` of the
/// parent's extended public key gives the child's. The claim is made only where
/// both scalars (the first 32 bytes, little-endian) are below 2^255, the range in
/// which cryptoxide's `scalarmult_base` computes the public point (its top nibble
/// at most 7); there the child scalar is the parent's plus eight times the
/// truncated `Z`, with no carry out of 256 bits, and its point is the parent's
/// point plus the point that `XPub::derive` adds.
#[verifier::external_body]
fn xprv_derive(bytes: &[u8; 96], index: u32) -> (r: [u8; 96])
    ensures
        r@ == xprv_derived(bytes@, index),
        index < HARDENED && bytes@[31] < 0x80 && r@[31] < 0x80 ==> xpub_derived(xprv_public_key(bytes@), index)
            == Some(xprv_public_key(r@)),
{
    let esk: [u8; 64] = bytes[0..64].try_into().unwrap();
    let cc: [u8; 32] = bytes[64..96].try_into().unwrap();
    ::ed25519_bip32::XPrv::from_extended_and_chaincode(&esk, &cc)
        .derive(::ed25519_bip32::DerivationScheme::V2, index)
        .into()
}

/// `ed25519_bip32::XPrv::public`: the Ed25519 public key of the extended secret
/// (the first 64 bytes; named) followed by the private key's chain code,
/// unchanged.
#[verifier::external_body]
pub(crate) fn xprv_public(bytes: &[u8; 96]) -> (r: [u8; 64])
    ensures
        r@.subrange(0, 32) == ed25519_extended_public(bytes@.subrange(0, 64)),
        r@.subrange(32, 64) == bytes@.subrange(64, 96),
{
    let esk: [u8; 64] = bytes[0..64].try_into().unwrap();
    let cc: [u8; 32] = bytes[64..96].try_into().unwrap();
    ::ed25519_bip32::XPrv::from_extended_and_chaincode(&esk, &cc).public().into()
}

/// `ed25519_bip32::XPub::derive` with scheme V2: a hardened index is refused with
/// `ExpectedSoftDerivation`; a soft one gives the named child, or
/// `InvalidAddition` when the named derivation has none.
#[verifier::external_body]
fn xpub_derive(bytes: &[u8; 64], index: u32) -> (r: Result<[u8; 64], DerivationError>)
    ensures
        index >= HARDENED ==> r matches Err(DerivationError::ExpectedSoftDerivation),
        index < HARDENED ==> match r {
            Ok(k) => xpub_derived(bytes@, index) == Some(k@),
            Err(e) => xpub_derived(bytes@, index) is None && e == DerivationError::InvalidAddition,
        },
{
    match ::ed25519_bip32::XPub::from_bytes(*bytes).derive(::ed25519_bip32::DerivationScheme::V2, index) {
        Ok(k) => Ok(k.into()),
        Err(::ed25519_bip32::DerivationError::InvalidAddition) => Err(DerivationError::InvalidAddition),
        Err(::ed25519_bip32::DerivationError::ExpectedSoftDerivation) => Err(DerivationError::ExpectedSoftDerivation),
    }
}

// ---------------------------------------------------------------------------
// Byte helpers
// ---------------------------------------------------------------------------

/// Copies `N` bytes of a vector into an array.
pub(crate) fn bytes_to_array<const N: usize>(v: &Vec<u8>) -> (r: [u8; N])
    requires
        v@.len() == N,
    ensures
        r@ == v@,
{
    let mut a = [0u8; N];
    let mut i: usize = 0;
    while i < N
        invariant
            v@.len() == N,
            a@.len() == N,
            i <= N,
            forall|j: int| 0 <= j < i ==> a@[j] == v@[j],
        decreases N - i,
    {
        a[i] = v[i];
        i = i + 1;
    }
    assert(a@ =~= v@);
    a
}

/// Copies `N` bytes of `src`, starting at `start`, into an array.
pub(crate) fn sub_array<const N: usize>(src: &[u8], start: usize) -> (r: [u8; N])
    requires
        start + N <= src@.len(),
    ensures
        r@ == src@.subrange(start as int, start + N),
{
    let mut a = [0u8; N];
    let mut i: usize = 0;
    while i < N
        invariant
            start + N <= src.len(),
            a@.len() == N,
            i <= N,
            forall|j: int| 0 <= j < i ==> a@[j] == src@[start + j],
        decreases N - i,
    {
        a[i] = src[start + i];
        i = i + 1;
    }
    assert(a@ =~= src@.subrange(start as int, start + N));
    a
}

// ---------------------------------------------------------------------------
// Public keys
// ---------------------------------------------------------------------------

/// Ed25519-BIP32 extended public key: a 32-byte Ed25519 point followed by a
/// 32-byte chain code.
#[derive(Debug, PartialEq, Eq)]
pub struct Ed25519Bip32PublicKey {
    bytes: [u8; 64],
}

impl View for Ed25519Bip32PublicKey {
    type V = Seq<u8>;

    closed spec fn view(&self) -> Seq<u8> {
        self.bytes@
    }
}

impl Ed25519Bip32PublicKey {
    /// Every public key is 64 bytes long.
    pub proof fn lemma_len(&self)
        ensures
            self@.len() == 64,
    {
    }

    pub fn from_bytes(bytes: [u8; 64]) -> (r: Self)
        ensures
            r@ == bytes@,
    {
        Ed25519Bip32PublicKey { bytes }
    }

    pub fn as_bytes(&self) -> (r: Vec<u8>)
        ensures
            r@ == self@,
    {
        vstd::slice::slice_to_vec(self.bytes.as_slice())
    }

    /// Soft (non-hardened) child derivation; hardened indices are refused.
    pub fn derive(&self, index: u32) -> (r: Result<Self, DerivationError>)
        ensures
            index >= HARDENED ==> r matches Err(DerivationError::ExpectedSoftDerivation),
            index < HARDENED ==> match r {
                Ok(k) => xpub_derived(self@, index) == Some(k@),
                Err(e) => xpub_derived(self@, index) is None && e == DerivationError::InvalidAddition,
            },
    {
        match xpub_derive(&self.bytes, index) {
            Ok(k) => Ok(Ed25519Bip32PublicKey { bytes: k }),
            Err(e) => Err(e),
        }
    }

    /// The 32-byte Ed25519 public key, without the chain code.
    pub fn to_ed25519_pubkey(&self) -> (r: [u8; 32])
        ensures
            r@ == self@.subrange(0, 32),
    {
        sub_array::<32>(self.bytes.as_slice(), 0)
    }

    pub fn chain_code(&self) -> (r: [u8; 32])
        ensures
            r@ == self@.subrange(32, 64),
    {
        sub_array::<32>(self.bytes.as_slice(), 32)
    }

    /// The bech32 text of the key under the human-readable part `xpub`; it always
    /// succeeds, and reading it back gives this key.
    pub fn to_bech32(&self) -> (r: Result<String, ::bech32::EncodeError>)
        ensures
            r is Ok,
            r matches Ok(s) ==> s@ == bech32_encoding(xpub_hrp(), self@),
            r matches Ok(s) ==> starts_with_hrp(s@, xpub_hrp()) && s@.len() == 114 && no_uppercase(s@),
            r matches Ok(s) ==> public_key_from_text(s@) == Some(self@),
    {
        proof {
            reveal_strlit("xpub");
            assert(lowercase_hrp("xpub"@));
            assert("xpub"@ =~= xpub_hrp());
            assert(bech32_encoded_len(4, 64) <= 1023);
            lemma_hrp_matches_refl(xpub_hrp());
        }
        bech32_encode("xpub", self.bytes.as_slice())
    }

    /// Reads a key from bech32 text: the text must decode, its human-readable part
    /// must be `xpub` (in any case), and its data must be 64 bytes long.
    pub fn from_bech32(bech32: String) -> (r: Result<Self, FromBech32Error>)
        ensures
            match bech32_decoding(bech32@) {
                None => r matches Err(FromBech32Error::InvalidBech32(_)),
                Some((h, d)) => if !hrp_matches(h, xpub_hrp()) {
                    r matches Err(FromBech32Error::InvalidBech32Hrp)
                } else if d.len() != 64 {
                    r matches Err(FromBech32Error::UnexpectedBech32Length)
                } else {
                    r matches Ok(k) && k@ == d
                },
            },
            r is Ok <==> public_key_from_text(bech32@) is Some,
            r matches Ok(k) ==> public_key_from_text(bech32@) == Some(k@),
    {
        let (hrp, data) = match bech32_decode(bech32.as_str()) {
            Ok(p) => p,
            Err(e) => return Err(FromBech32Error::InvalidBech32(e)),
        };
        proof {
            reveal_strlit("xpub");
            assert("xpub"@ =~= xpub_hrp());
        }
        if !hrp_eq(hrp.as_str(), "xpub") {
            return Err(FromBech32Error::InvalidBech32Hrp);
        }
        if data.len() != 64 {
            return Err(FromBech32Error::UnexpectedBech32Length);
        }
        let bytes = bytes_to_array::<64>(&data);
        Ok(Self::from_bytes(bytes))
    }
}

/// Equality of human-readable parts ignoring case is reflexive.
pub proof fn lemma_hrp_matches_refl(h: Seq<char>)
    ensures
        hrp_matches(h, h),
{
}

// ---------------------------------------------------------------------------
// Private keys
// ---------------------------------------------------------------------------

/// Ed25519-BIP32 extended private key: a 64-byte extended secret followed by a
/// 32-byte chain code.
#[derive(Debug, PartialEq, Eq)]
pub struct Ed25519Bip32PrivateKey {
    bytes: [u8; 96],
}

impl View for Ed25519Bip32PrivateKey {
    type V = Seq<u8>;

    closed spec fn view(&self) -> Seq<u8> {
        self.bytes@
    }
}

impl Ed25519Bip32PrivateKey {
    /// Every private key is 96 bytes long.
    pub proof fn lemma_len(&self)
        ensures
            self@.len() == 96,
    {
    }

    /// A fresh key from 96 random bytes, normalised to the shape of an Ed25519
    /// extended secret with the third highest bit clear.
    pub fn generate() -> (r: Result<Self, ::getrandom::Error>)
        ensures
            r matches Ok(k) ==> extended_scalar_valid(k@) && k@[31] & 0x20u8 == 0u8,
            r matches Ok(k) ==> exists|raw: Seq<u8>| raw.len() == 96 && k@ == normalized_force3rd(raw),
    {
        let buf = match random_bytes::<96>() {
            Ok(b) => b,
            Err(e) => return Err(e),
        };
        Ok(Self::from_entropy(buf))
    }

    /// The key that 96 random bytes give: the bytes normalised to the shape of an
    /// Ed25519 extended secret with the third highest bit clear (the three lowest
    /// bits of byte 0 cleared, the three highest bits of byte 31 set to `010`).
    pub fn from_entropy(raw: [u8; 96]) -> (r: Self)
        ensures
            r@ == normalized_force3rd(raw@),
            extended_scalar_valid(r@),
            r@[31] & 0x20u8 == 0u8,
    {
        let bytes = xprv_normalize_bytes_force3rd(raw);
        proof {
            let b0 = raw@[0];
            let b31 = raw@[31];
            assert((b0 & 0xf8u8) & 0x07u8 == 0u8) by (bit_vector);
            assert(((b31 & 0x1fu8) | 0x40u8) & 0xc0u8 == 0x40u8) by (bit_vector);
            assert(((b31 & 0x1fu8) | 0x40u8) & 0x20u8 == 0u8) by (bit_vector);
        }
        Ed25519Bip32PrivateKey { bytes }
    }

    /// Accepts 96 bytes as a private key when the scalar has the shape of an
    /// Ed25519 extended secret.
    pub fn from_bytes(bytes: [u8; 96]) -> (r: Result<Self, PrivateKeyError>)
        ensures
            private_key_check(bytes@) == key_result_view(r),
    {
        match xprv_from_bytes_verified(bytes) {
            Ok(k) => Ok(Ed25519Bip32PrivateKey { bytes: k }),
            Err(e) => Err(e),
        }
    }

    pub fn as_bytes(&self) -> (r: Vec<u8>)
        ensures
            r@ == self@,
    {
        vstd::slice::slice_to_vec(self.bytes.as_slice())
    }

    /// Child derivation (hardened when `index >= HARDENED`). A soft child's
    /// extended public key is the soft derivation of this key's extended public
    /// key, where both scalars are below 2^255 (byte 31 below `0x80`).
    pub fn derive(&self, index: u32) -> (r: Self)
        ensures
            r@ == xprv_derived(self@, index),
            index < HARDENED && self@[31] < 0x80 && r@[31] < 0x80 ==> xpub_derived(xprv_public_key(self@), index)
                == Some(xprv_public_key(r@)),
    {
        Ed25519Bip32PrivateKey { bytes: xprv_derive(&self.bytes, index) }
    }

    /// The extended public key: the Ed25519 public point of the secret, with the
    /// same chain code.
    pub fn to_public(&self) -> (r: Ed25519Bip32PublicKey)
        ensures
            r@ == xprv_public_key(self@),
            r@.subrange(0, 32) == ed25519_extended_public(self@.subrange(0, 64)),
            r@.subrange(32, 64) == self@.subrange(64, 96),
    {
        let bytes = xprv_public(&self.bytes);
        proof {
            assert(bytes@ =~= bytes@.subrange(0, 32) + bytes@.subrange(32, 64));
        }
        Ed25519Bip32PublicKey { bytes }
    }

    /// The 64-byte extended secret, without the chain code.
    pub fn extended_secret_key(&self) -> (r: [u8; 64])
        ensures
            r@ == self@.subrange(0, 64),
    {
        sub_array::<64>(self.bytes.as_slice(), 0)
    }

    pub fn chain_code(&self) -> (r: [u8; 32])
        ensures
            r@ == self@.subrange(64, 96),
    {
        sub_array::<32>(self.bytes.as_slice(), 64)
    }

    /// The bech32 text of the key under the human-readable part `xprv`; it always
    /// succeeds, and reading it back gives this key whenever the key has the shape
    /// of an Ed25519 extended secret.
    pub fn to_bech32(&self) -> (r: Result<String, ::bech32::EncodeError>)
        ensures
            r is Ok,
            r matches Ok(s) ==> s@ == bech32_encoding(xprv_hrp(), self@),
            r matches Ok(s) ==> starts_with_hrp(s@, xprv_hrp()) && s@.len() == 165 && no_uppercase(s@),
            r matches Ok(s) ==> bech32_decoding(s@) == Some((xprv_hrp(), self@)),
            r matches Ok(s) ==> (extended_scalar_valid(self@) ==> private_key_from_text(s@) == Some(self@)),
    {
        proof {
            reveal_strlit("xprv");
            assert(lowercase_hrp("xprv"@));
            assert("xprv"@ =~= xprv_hrp());
            assert(bech32_encoded_len(4, 96) <= 1023);
            lemma_hrp_matches_refl(xprv_hrp());
        }
        bech32_encode("xprv", self.bytes.as_slice())
    }

    /// Reads a key from bech32 text: the text must decode, its human-readable part
    /// must be `xprv` (in any case), its data must be 96 bytes long and have the
    /// shape of an Ed25519 extended secret.
    pub fn from_bech32(bech32: String) -> (r: Result<Self, FromBech32Error>)
        ensures
            match bech32_decoding(bech32@) {
                None => r matches Err(FromBech32Error::InvalidBech32(_)),
                Some((h, d)) => if !hrp_matches(h, xprv_hrp()) {
                    r matches Err(FromBech32Error::InvalidBech32Hrp)
                } else if d.len() != 96 {
                    r matches Err(FromBech32Error::UnexpectedBech32Length)
                } else {
                    match private_key_check(d) {
                        Ok(_) => r matches Ok(k) && k@ == d,
                        Err(e) => r matches Err(FromBech32Error::InvalidPrivateKey(e2)) && e2 == e,
                    }
                },
            },
            r is Ok <==> private_key_from_text(bech32@) is Some,
            r matches Ok(k) ==> private_key_from_text(bech32@) == Some(k@),
    {
        let (hrp, data) = match bech32_decode(bech32.as_str()) {
            Ok(p) => p,
            Err(e) => return Err(FromBech32Error::InvalidBech32(e)),
        };
        proof {
            reveal_strlit("xprv");
            assert("xprv"@ =~= xprv_hrp());
        }
        if !hrp_eq(hrp.as_str(), "xprv") {
            return Err(FromBech32Error::InvalidBech32Hrp);
        }
        if data.len() != 96 {
            return Err(FromBech32Error::UnexpectedBech32Length);
        }
        let bytes = bytes_to_array::<96>(&data);
        match Self::from_bytes(bytes) {
            Ok(k) => Ok(k),
            Err(e) => Err(FromBech32Error::InvalidPrivateKey(e)),
        }
    }
}

} // verus!
