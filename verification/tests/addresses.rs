use pallas_addresses::{ShelleyAddress, ShelleyDelegationPart, ShelleyPaymentPart, StakeAddress, StakePayload};
use pallas_crypto::hash::Hasher;
use trustvault::addresses::{base_address, reward_address, Network};
use trustvault::ed25519_bip32::Ed25519Bip32PublicKey;

const XPUB_BECH32: &str = "xpub1m2d3a43r7fccff5tvtzrq2d4sktk0k00wcazpjp64zud7g9d3lmg7a53429ek0wx7xkwslh8mdq9hey07mwt8gl2lua7pmd4v80qhrqkvg3n6";

fn payment_key() -> Ed25519Bip32PublicKey {
    Ed25519Bip32PublicKey::from_bech32(XPUB_BECH32.to_string()).unwrap()
}

fn stake_key() -> Ed25519Bip32PublicKey {
    payment_key().derive(2).unwrap()
}

fn hash_of(xpub: &Ed25519Bip32PublicKey) -> Vec<u8> {
    Hasher::<224>::hash(&xpub.as_bytes()[..32]).to_vec()
}

#[test]
fn base_address_layout() {
    let text = base_address(Network::Testnet, &payment_key(), Some(&stake_key())).unwrap();
    assert!(text.starts_with("addr_test1"));
    let (hrp, data) = bech32::decode(&text).unwrap();
    assert_eq!(hrp.as_str(), "addr_test");
    assert_eq!(data.len(), 57);
    assert_eq!(data[0], 0x00);
    assert_eq!(data[1..29].to_vec(), hash_of(&payment_key()));
    assert_eq!(data[29..].to_vec(), hash_of(&stake_key()));

    let text = base_address(Network::Mainnet, &payment_key(), Some(&stake_key())).unwrap();
    assert!(text.starts_with("addr1"));
    assert_eq!(bech32::decode(&text).unwrap().1[0], 0x01);
}

#[test]
fn base_address_without_stake_key_is_an_enterprise_address() {
    let text = base_address(Network::Mainnet, &payment_key(), None).unwrap();
    let (hrp, data) = bech32::decode(&text).unwrap();
    assert_eq!(hrp.as_str(), "addr");
    assert_eq!(data.len(), 29);
    assert_eq!(data[0], 0x61);
    assert_eq!(data[1..].to_vec(), hash_of(&payment_key()));
}

#[test]
fn base_address_matches_pallas() {
    let payment = Hasher::<224>::hash(&payment_key().as_bytes()[..32]);
    let stake = Hasher::<224>::hash(&stake_key().as_bytes()[..32]);
    let expected = ShelleyAddress::new(
        pallas_addresses::Network::Testnet,
        ShelleyPaymentPart::key_hash(payment),
        ShelleyDelegationPart::key_hash(stake),
    )
    .to_bech32()
    .unwrap();
    assert_eq!(base_address(Network::Testnet, &payment_key(), Some(&stake_key())).unwrap(), expected);
}

#[test]
fn reward_address_layout() {
    let text = reward_address(Network::Testnet, &stake_key()).unwrap();
    let (hrp, data) = bech32::decode(&text).unwrap();
    assert_eq!(hrp.as_str(), "stake_test");
    assert_eq!(data[0], 0xe0);
    assert_eq!(data[1..].to_vec(), hash_of(&stake_key()));

    let text = reward_address(Network::Mainnet, &stake_key()).unwrap();
    assert!(text.starts_with("stake1"));
    assert_eq!(bech32::decode(&text).unwrap().1[0], 0xe1);

    let stake = Hasher::<224>::hash(&stake_key().as_bytes()[..32]);
    let expected = StakeAddress::new(pallas_addresses::Network::Mainnet, StakePayload::Stake(stake))
        .to_bech32()
        .unwrap();
    assert_eq!(text, expected);
}

#[test]
fn unknown_networks_have_no_address_text() {
    assert!(base_address(Network::Other(7), &payment_key(), Some(&stake_key())).is_err());
    assert!(base_address(Network::Other(0), &payment_key(), None).is_err());
    assert!(reward_address(Network::Other(1), &stake_key()).is_err());
}
