use pallas_crypto::key::ed25519::{PublicKey, SecretKeyExtended as PallasSecretKeyExtended, Signature};
use trustvault::ed25519_bip32::Ed25519Bip32PrivateKey;
use trustvault::encoding::{hrp_eq, to_ascii_lower};
use trustvault::signing::{SecretKeyExtended, SecretKeyExtendedError};

#[test]
fn secret_key_extended_checks_the_scalar_bits() {
    assert!(matches!(SecretKeyExtended::from_bytes([0u8; 64]), Err(SecretKeyExtendedError::InvalidBitTweaks)));
    let mut bytes = [0u8; 64];
    bytes[31] = 0x40;
    assert!(SecretKeyExtended::from_bytes(bytes).is_ok());
    bytes[0] = 0x04;
    assert!(matches!(SecretKeyExtended::from_bytes(bytes), Err(SecretKeyExtendedError::InvalidBitTweaks)));
}

#[test]
fn signature_verifies_under_the_extended_public_key() {
    let xprv = Ed25519Bip32PrivateKey::generate().unwrap();
    let signer = xprv.to_ed25519_secret_key_extended();
    let signature = signer.sign(b"transaction hash");
    assert_eq!(signature.len(), 64);
    let mut sig = [0u8; 64];
    sig.copy_from_slice(&signature);
    let public_key = PublicKey::from(xprv.to_public().to_ed25519_pubkey());
    assert!(public_key.verify(b"transaction hash", &Signature::from(sig)));
    assert!(!public_key.verify(b"another hash", &Signature::from(sig)));
}

#[test]
fn signing_key_is_the_extended_secret() {
    let xprv = Ed25519Bip32PrivateKey::generate().unwrap();
    let from_private = xprv.to_ed25519_secret_key_extended().sign(b"m");
    let direct = SecretKeyExtended::from_bytes(xprv.extended_secret_key()).unwrap().sign(b"m");
    assert_eq!(from_private, direct);
}

#[test]
fn hrp_comparison_ignores_ascii_case() {
    assert!(hrp_eq("xpub", "xpub"));
    assert!(hrp_eq("XPUB", "xpub"));
    assert!(hrp_eq("xPuB", "XpUb"));
    assert!(!hrp_eq("xpub", "xprv"));
    assert!(!hrp_eq("xpu", "xpub"));
}

#[test]
fn ascii_lowercase() {
    assert_eq!(to_ascii_lower('A'), 'a');
    assert_eq!(to_ascii_lower('Z'), 'z');
    assert_eq!(to_ascii_lower('a'), 'a');
    assert_eq!(to_ascii_lower('1'), '1');
    assert_eq!(to_ascii_lower('É'), 'É');
}

#[test]
fn signatures_match_pallas_on_well_shaped_secrets() {
    let xprv = Ed25519Bip32PrivateKey::generate().unwrap();
    let ours = xprv.to_ed25519_secret_key_extended().sign(b"hash");
    let pallas = PallasSecretKeyExtended::from_bytes(xprv.extended_secret_key()).unwrap().sign(b"hash");
    assert_eq!(ours, pallas.as_ref().to_vec());
}

#[test]
fn signing_key_public_key_is_the_xpub_point() {
    let xprv = Ed25519Bip32PrivateKey::generate().unwrap();
    let signer = xprv.to_ed25519_secret_key_extended();
    assert_eq!(signer.public_key(), xprv.to_public().to_ed25519_pubkey());
    assert_eq!(signer.public_key(), PallasSecretKeyExtended::from_bytes(xprv.extended_secret_key()).unwrap().public_key().as_ref());
}

#[test]
fn any_extended_secret_signs() {
    let mut bytes = [0u8; 96];
    bytes[31] = 0xff;
    bytes[0] = 0x07;
    let mut cc = [0u8; 32];
    cc[0] = 1;
    bytes[64..].copy_from_slice(&cc);
    let xprv = Ed25519Bip32PrivateKey::from_entropy(bytes);
    let signer = xprv.to_ed25519_secret_key_extended();
    assert_eq!(signer.sign(b"m").len(), 64);
}

#[test]
fn from_entropy_normalises_the_scalar_bits() {
    let xprv = Ed25519Bip32PrivateKey::from_entropy([0xffu8; 96]);
    let bytes = xprv.as_bytes();
    assert_eq!(bytes[0], 0xf8);
    assert_eq!(bytes[31], 0x5f);
    assert_eq!(bytes[1..31].to_vec(), vec![0xffu8; 30]);
    assert_eq!(bytes[32..].to_vec(), vec![0xffu8; 64]);
    assert_eq!(Ed25519Bip32PrivateKey::from_entropy([0u8; 96]).as_bytes()[31], 0x40);
}
