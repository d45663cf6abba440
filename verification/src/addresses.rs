//! Cardano Shelley base addresses and stake (reward) addresses of key hashes,
//! through `pallas-addresses` and `pallas-crypto`.

use vstd::prelude::*;
use crate::ed25519_bip32::Ed25519Bip32PublicKey;
use crate::encoding::{bech32_decoding, bech32_encoding};

verus! {

/// The network an address belongs to.
#[derive(Debug, Clone, Copy, PartialEq, Eq)]
pub enum Network {
    Testnet,
    Mainnet,
    Other(u8),
}

/// The 28-byte Blake2b-224 digest that `pallas_crypto::hash::Hasher::<224>::hash`
/// computes.
pub uninterp spec fn blake2b_224(data: Seq<u8>) -> Seq<u8>;

/// The hash that identifies an extended public key in an address: Blake2b-224 of
/// its 32-byte Ed25519 point.
pub open spec fn key_hash_of(xpub: Seq<u8>) -> Seq<u8> {
    blake2b_224(xpub.subrange(0, 32))
}

/// The address header byte: the type id in the high nibble, the network id
/// (0 for testnet, 1 for mainnet) in the low one.
pub open spec fn address_header(type_id: u8, network: Network) -> u8 {
    match network {
        Network::Mainnet => (type_id * 16 + 1) as u8,
        _ => (type_id * 16) as u8,
    }
}

/// Header type id of a base address with a key-hash payment part and a key-hash
/// delegation part.
pub open spec fn base_key_key_type() -> u8 {
    0
}

/// Header type id of an enterprise address (key-hash payment part, no delegation).
pub open spec fn base_key_null_type() -> u8 {
    6
}

/// Header type id of a stake address of a key hash.
pub open spec fn stake_key_type() -> u8 {
    14
}

/// The human-readable part of payment addresses on a network.
pub open spec fn payment_hrp(network: Network) -> Seq<char> {
    match network {
        Network::Mainnet => seq!['a', 'd', 'd', 'r'],
        _ => seq!['a', 'd', 'd', 'r', '_', 't', 'e', 's', 't'],
    }
}

/// The human-readable part of stake addresses on a network.
pub open spec fn stake_hrp(network: Network) -> Seq<char> {
    match network {
        Network::Mainnet => seq!['s', 't', 'a', 'k', 'e'],
        _ => seq!['s', 't', 'a', 'k', 'e', '_', 't', 'e', 's', 't'],
    }
}

/// The raw bytes of a Shelley address with a key-hash payment part and an
/// optional key-hash delegation part.
pub open spec fn shelley_address_bytes(network: Network, payment: Seq<u8>, delegation: Option<Seq<u8>>) -> Seq<u8> {
    match delegation {
        Some(d) => seq![address_header(base_key_key_type(), network)] + payment + d,
        None => seq![address_header(base_key_null_type(), network)] + payment,
    }
}

/// The raw bytes of a stake address of a key hash.
pub open spec fn stake_address_bytes(network: Network, stake: Seq<u8>) -> Seq<u8> {
    seq![address_header(stake_key_type(), network)] + stake
}

/// `pallas_crypto::hash::Hasher::<224>::hash`: the Blake2b-224 digest.
#[verifier::external_body]
fn blake2b_224_hash(data: &[u8]) -> (r: [u8; 28])
    ensures
        r@ == blake2b_224(data@),
{
    *::pallas_crypto::hash::Hasher::<224>::hash(data)
}

/// `pallas_addresses::ShelleyAddress::to_bech32` of an address with a key-hash
/// payment part and a key-hash (or null) delegation part. It fails (unknown
/// network hrp) exactly for `Network::Other`; otherwise it is
/// `bech32::encode::<Bech32>` of the header byte, the payment hash and the
/// delegation hash under `addr` (mainnet) or `addr_test`, so that
/// `bech32::decode` reads that part and those bytes back.
#[verifier::external_body]
fn shelley_address_bech32(network: Network, payment: [u8; 28], delegation: Option<[u8; 28]>) -> (r: Result<String, ::pallas_addresses::Error>)
    ensures
        r is Err <==> network is Other,
        r matches Ok(s) ==> s@ == bech32_encoding(payment_hrp(network), shelley_address_bytes(network, payment@, delegation_view(delegation))),
        r matches Ok(s) ==> bech32_decoding(s@) == Some((payment_hrp(network), shelley_address_bytes(network, payment@, delegation_view(delegation)))),
{
    let delegation = match delegation {
        Some(h) => ::pallas_addresses::ShelleyDelegationPart::key_hash(h.into()),
        None => ::pallas_addresses::ShelleyDelegationPart::Null,
    };
    let network = match network {
        Network::Testnet => ::pallas_addresses::Network::Testnet,
        Network::Mainnet => ::pallas_addresses::Network::Mainnet,
        Network::Other(x) => ::pallas_addresses::Network::Other(x),
    };
    ::pallas_addresses::ShelleyAddress::new(
        network,
        ::pallas_addresses::ShelleyPaymentPart::key_hash(payment.into()),
        delegation,
    ).to_bech32()
}

/// `pallas_addresses::StakeAddress::to_bech32` of a key-hash stake address. It
/// fails exactly for `Network::Other`; otherwise it is `bech32::encode::<Bech32>`
/// of the header byte and the stake hash under `stake` (mainnet) or
/// `stake_test`, so that `bech32::decode` reads that part and those bytes back.
#[verifier::external_body]
fn stake_address_bech32(network: Network, stake: [u8; 28]) -> (r: Result<String, ::pallas_addresses::Error>)
    ensures
        r is Err <==> network is Other,
        r matches Ok(s) ==> s@ == bech32_encoding(stake_hrp(network), stake_address_bytes(network, stake@)),
        r matches Ok(s) ==> bech32_decoding(s@) == Some((stake_hrp(network), stake_address_bytes(network, stake@))),
{
    let network = match network {
        Network::Testnet => ::pallas_addresses::Network::Testnet,
        Network::Mainnet => ::pallas_addresses::Network::Mainnet,
        Network::Other(x) => ::pallas_addresses::Network::Other(x),
    };
    ::pallas_addresses::StakeAddress::new(
        network,
        ::pallas_addresses::StakePayload::Stake(stake.into()),
    ).to_bech32()
}

/// The optional delegation hash as bytes.
pub open spec fn delegation_view(d: Option<[u8; 28]>) -> Option<Seq<u8>> {
    match d {
        Some(h) => Some(h@),
        None => None,
    }
}

/// The optional stake key as bytes.
pub open spec fn stake_key_view(k: Option<&Ed25519Bip32PublicKey>) -> Option<Seq<u8>> {
    match k {
        Some(k) => Some(key_hash_of(k@)),
        None => None,
    }
}

/// The Blake2b-224 hash of the key's Ed25519 point.
fn key_hash(xpub: &Ed25519Bip32PublicKey) -> (r: [u8; 28])
    ensures
        r@ == key_hash_of(xpub@),
        key_hash_of(xpub@).len() == 28,
{
    let public_key = xpub.to_ed25519_pubkey();
    blake2b_224_hash(public_key.as_slice())
}

/// The bech32 base address of a payment key, delegated to a stake key when one is
/// given (an enterprise address otherwise).
pub fn base_address(
    network: Network,
    payment_xpub: &Ed25519Bip32PublicKey,
    stake_xpub: Option<&Ed25519Bip32PublicKey>,
) -> (r: Result<String, ::pallas_addresses::Error>)
    ensures
        r is Err <==> network is Other,
        r matches Ok(_) ==> shelley_address_bytes(network, key_hash_of(payment_xpub@), stake_key_view(stake_xpub)).len()
            == if stake_xpub is Some { 57int } else { 29int },
        r matches Ok(s) ==> s@ == bech32_encoding(
            payment_hrp(network),
            shelley_address_bytes(network, key_hash_of(payment_xpub@), stake_key_view(stake_xpub)),
        ),
        r matches Ok(s) ==> bech32_decoding(s@) == Some((
            payment_hrp(network),
            shelley_address_bytes(network, key_hash_of(payment_xpub@), stake_key_view(stake_xpub)),
        )),
{
    let payment_hash = key_hash(payment_xpub);
    let delegation = match stake_xpub {
        Some(stake) => Some(key_hash(stake)),
        None => None,
    };
    shelley_address_bech32(network, payment_hash, delegation)
}

/// The bech32 stake (reward) address of a stake key.
pub fn reward_address(network: Network, stake_xpub: &Ed25519Bip32PublicKey) -> (r: Result<String, ::pallas_addresses::Error>)
    ensures
        r is Err <==> network is Other,
        r matches Ok(_) ==> stake_address_bytes(network, key_hash_of(stake_xpub@)).len() == 29,
        r matches Ok(s) ==> s@ == bech32_encoding(stake_hrp(network), stake_address_bytes(network, key_hash_of(stake_xpub@))),
        r matches Ok(s) ==> bech32_decoding(s@) == Some((stake_hrp(network), stake_address_bytes(network, key_hash_of(stake_xpub@)))),
{
    let stake_hash = key_hash(stake_xpub);
    stake_address_bech32(network, stake_hash)
}

} // verus!
