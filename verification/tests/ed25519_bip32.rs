use trustvault::ed25519_bip32::{
    DerivationError, Ed25519Bip32PrivateKey, Ed25519Bip32PublicKey, FromBech32Error, PrivateKeyError, HARDENED,
};

const XPUB_BECH32: &str = "xpub1m2d3a43r7fccff5tvtzrq2d4sktk0k00wcazpjp64zud7g9d3lmg7a53429ek0wx7xkwslh8mdq9hey07mwt8gl2lua7pmd4v80qhrqkvg3n6";

fn valid_private_bytes() -> [u8; 96] {
    let mut bytes = [0u8; 96];
    for (i, b) in bytes.iter_mut().enumerate() {
        *b = i as u8;
    }
    bytes[0] &= 0xf8;
    bytes[31] = (bytes[31] & 0x1f) | 0x40;
    bytes
}

#[test]
fn ed25519_bip32_bech32_roundtrip() {
    let xprv = Ed25519Bip32PrivateKey::generate().unwrap();
    let xprv_bech32 = xprv.to_bech32().unwrap();
    let decoded_xprv = Ed25519Bip32PrivateKey::from_bech32(xprv_bech32).unwrap();

    assert_eq!(xprv, decoded_xprv);
}

#[test]
fn bech32_roundtrip() {
    let xpub_bech32 = XPUB_BECH32;
    let xpub = Ed25519Bip32PublicKey::from_bech32(xpub_bech32.to_string()).unwrap();
    let encoded_xpub_bech32 = xpub.to_bech32().unwrap();

    assert_eq!(xpub_bech32, encoded_xpub_bech32)
}

#[test]
fn public_from_bech32_accepts_upper_case_text() {
    let lower = Ed25519Bip32PublicKey::from_bech32(XPUB_BECH32.to_string()).unwrap();
    let upper = Ed25519Bip32PublicKey::from_bech32(XPUB_BECH32.to_uppercase()).unwrap();
    assert_eq!(lower, upper);
}

#[test]
fn public_key_parts() {
    let xpub = Ed25519Bip32PublicKey::from_bech32(XPUB_BECH32.to_string()).unwrap();
    let bytes = xpub.as_bytes();
    assert_eq!(bytes.len(), 64);
    assert_eq!(xpub.to_ed25519_pubkey().to_vec(), bytes[..32].to_vec());
    assert_eq!(xpub.chain_code().to_vec(), bytes[32..].to_vec());
    let mut array = [0u8; 64];
    array.copy_from_slice(&bytes);
    assert_eq!(Ed25519Bip32PublicKey::from_bytes(array), xpub);
}

#[test]
fn public_derive_refuses_hardened_index() {
    let xpub = Ed25519Bip32PublicKey::from_bech32(XPUB_BECH32.to_string()).unwrap();
    assert_eq!(xpub.derive(HARDENED).unwrap_err(), DerivationError::ExpectedSoftDerivation);
    assert_eq!(xpub.derive(HARDENED | 5).unwrap_err(), DerivationError::ExpectedSoftDerivation);
}

#[test]
fn soft_derivation_commutes_with_to_public() {
    let xprv = Ed25519Bip32PrivateKey::from_bytes(valid_private_bytes()).unwrap();
    let via_private = xprv.derive(3).to_public();
    let via_public = xprv.to_public().derive(3).unwrap();
    assert_eq!(via_private, via_public);
    assert_ne!(via_public.as_bytes(), xprv.to_public().as_bytes());
}

#[test]
fn private_derive_gives_a_new_key() {
    let xprv = Ed25519Bip32PrivateKey::from_bytes(valid_private_bytes()).unwrap();
    let child = xprv.derive(1852 | HARDENED);
    assert_ne!(child.as_bytes(), xprv.as_bytes());
    assert_eq!(child, xprv.derive(1852 | HARDENED));
    assert_ne!(child, xprv.derive(1852));
}

#[test]
fn private_from_bytes_checks_the_scalar_bits() {
    assert_eq!(
        Ed25519Bip32PrivateKey::from_bytes([0u8; 96]).unwrap_err(),
        PrivateKeyError::HighestBitsInvalid
    );
    let mut bytes = valid_private_bytes();
    bytes[0] |= 1;
    assert_eq!(
        Ed25519Bip32PrivateKey::from_bytes(bytes).unwrap_err(),
        PrivateKeyError::LowestBitsInvalid
    );
    let mut bytes = valid_private_bytes();
    bytes[31] = 0xc0;
    assert_eq!(
        Ed25519Bip32PrivateKey::from_bytes(bytes).unwrap_err(),
        PrivateKeyError::HighestBitsInvalid
    );
}

#[test]
fn private_key_parts() {
    let bytes = valid_private_bytes();
    let xprv = Ed25519Bip32PrivateKey::from_bytes(bytes).unwrap();
    assert_eq!(xprv.as_bytes(), bytes.to_vec());
    assert_eq!(xprv.chain_code().to_vec(), bytes[64..].to_vec());
    assert_eq!(xprv.extended_secret_key().to_vec(), bytes[..64].to_vec());
}

#[test]
fn to_public_keeps_the_chain_code() {
    let bytes = valid_private_bytes();
    let xprv = Ed25519Bip32PrivateKey::from_bytes(bytes).unwrap();
    let xpub = xprv.to_public();
    assert_eq!(xpub.chain_code(), xprv.chain_code());
    assert_ne!(xpub.to_ed25519_pubkey().to_vec(), bytes[..32].to_vec());
}

#[test]
fn generated_keys_have_the_scalar_shape() {
    for _ in 0..8 {
        let bytes = Ed25519Bip32PrivateKey::generate().unwrap().as_bytes();
        assert_eq!(bytes.len(), 96);
        assert_eq!(bytes[0] & 0x07, 0);
        assert_eq!(bytes[31] & 0xe0, 0x40);
    }
}

#[test]
fn private_to_bech32_uses_the_xprv_part() {
    let xprv = Ed25519Bip32PrivateKey::from_bytes(valid_private_bytes()).unwrap();
    let text = xprv.to_bech32().unwrap();
    assert!(text.starts_with("xprv1"));
    assert_eq!(text.len(), 165);
    assert_eq!(text, text.to_lowercase());
    let (hrp, data) = bech32::decode(&text).unwrap();
    assert_eq!(hrp.as_str(), "xprv");
    assert_eq!(data, valid_private_bytes().to_vec());
}

#[test]
fn from_bech32_reports_each_failure() {
    assert!(matches!(
        Ed25519Bip32PublicKey::from_bech32("not bech32".to_string()),
        Err(FromBech32Error::InvalidBech32(_))
    ));
    assert!(matches!(
        Ed25519Bip32PrivateKey::from_bech32(XPUB_BECH32.to_string()),
        Err(FromBech32Error::InvalidBech32Hrp)
    ));
    let short = bech32::encode::<bech32::Bech32>(bech32::Hrp::parse("xpub").unwrap(), &[1u8; 32]).unwrap();
    assert!(matches!(
        Ed25519Bip32PublicKey::from_bech32(short),
        Err(FromBech32Error::UnexpectedBech32Length)
    ));
    let zero = bech32::encode::<bech32::Bech32>(bech32::Hrp::parse("xprv").unwrap(), &[0u8; 96]).unwrap();
    assert!(matches!(
        Ed25519Bip32PrivateKey::from_bech32(zero),
        Err(FromBech32Error::InvalidPrivateKey(PrivateKeyError::HighestBitsInvalid))
    ));
}

#[test]
fn public_to_bech32_is_lowercase_xpub_text() {
    let xpub = Ed25519Bip32PublicKey::from_bech32(XPUB_BECH32.to_uppercase()).unwrap();
    let text = xpub.to_bech32().unwrap();
    assert!(text.starts_with("xpub1"));
    assert_eq!(text.len(), 114);
    assert_eq!(text, XPUB_BECH32);
}
