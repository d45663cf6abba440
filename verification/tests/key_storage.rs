use std::sync::Arc;
use trustvault::aes256gcm::{decrypt_private_key_aes256gcm, encrypt_private_key_aes256gcm, Aes256GcmError};
use trustvault::encryption_key_cache::{bytes_eq, EncryptionKeyCache};
use trustvault::mock_kms::{decrypt, decrypt_checked, genkey, mock_kms_master_key, mock_unwrap_key, mock_wrap_key};

#[test]
fn cache_gives_back_what_was_inserted() {
    let mut cache = EncryptionKeyCache::new();
    assert!(cache.get(b"ct-1").is_none());
    cache.insert(b"ct-1".to_vec(), Arc::new(b"key-1".to_vec()));
    cache.insert(b"ct-2".to_vec(), Arc::new(b"key-2".to_vec()));
    assert_eq!(*cache.get(b"ct-1").unwrap(), b"key-1".to_vec());
    assert_eq!(*cache.get(b"ct-2").unwrap(), b"key-2".to_vec());
    assert!(cache.get(b"ct-3").is_none());
}

#[test]
fn cache_insert_replaces_an_entry() {
    let mut cache = EncryptionKeyCache::new();
    cache.insert(b"ct".to_vec(), Arc::new(b"old".to_vec()));
    cache.insert(b"ct".to_vec(), Arc::new(b"new".to_vec()));
    assert_eq!(*cache.get(b"ct").unwrap(), b"new".to_vec());
}

#[test]
fn bytes_eq_compares_contents() {
    assert!(bytes_eq(b"abc", b"abc"));
    assert!(!bytes_eq(b"abc", b"abd"));
    assert!(!bytes_eq(b"abc", b"ab"));
    assert!(bytes_eq(b"", b""));
}

#[test]
fn aes_roundtrip() {
    let key = [3u8; 32];
    let nonce = [4u8; 12];
    let secret = vec![5u8; 96];
    let sealed = encrypt_private_key_aes256gcm(&secret, &key, &nonce).unwrap();
    assert_eq!(sealed.len(), 96 + 16);
    assert_ne!(sealed[..96].to_vec(), secret);
    assert_eq!(decrypt_private_key_aes256gcm(&sealed, &key, &nonce).unwrap(), secret);
}

#[test]
fn aes_refuses_a_key_of_another_length() {
    let nonce = [0u8; 12];
    assert!(matches!(
        encrypt_private_key_aes256gcm(b"secret", &[1u8; 31], &nonce),
        Err(Aes256GcmError::InvalidKeyLength(31))
    ));
    assert!(matches!(
        decrypt_private_key_aes256gcm(b"sealed bytes that do not matter", &[1u8; 33], &nonce),
        Err(Aes256GcmError::InvalidKeyLength(33))
    ));
}

#[test]
fn aes_refuses_tampered_or_misaddressed_bytes() {
    let key = [3u8; 32];
    let nonce = [4u8; 12];
    let mut sealed = encrypt_private_key_aes256gcm(b"secret", &key, &nonce).unwrap();
    assert!(matches!(
        decrypt_private_key_aes256gcm(&sealed, &key, &[5u8; 12]),
        Err(Aes256GcmError::Aead(_))
    ));
    assert!(matches!(
        decrypt_private_key_aes256gcm(&sealed, &[9u8; 32], &nonce),
        Err(Aes256GcmError::Aead(_))
    ));
    sealed[0] ^= 1;
    assert!(matches!(
        decrypt_private_key_aes256gcm(&sealed, &key, &nonce),
        Err(Aes256GcmError::Aead(_))
    ));
}

#[test]
fn mock_master_key_is_all_sevens() {
    assert_eq!(mock_kms_master_key(), [7u8; 32]);
}

#[test]
fn mock_genkey_then_decrypt_gives_the_data_key() {
    let [ciphertext, plaintext] = genkey("r", "a", "s", "t", "p", "k", "AES-256").unwrap();
    assert_eq!(plaintext.len(), 32);
    assert_eq!(ciphertext.len(), 12 + 32 + 16);
    let [decrypted] = decrypt("r", "a", "s", "t", "p", &ciphertext).unwrap();
    assert_eq!(decrypted, plaintext);
    assert_eq!(decrypt_checked("r", "a", "s", "t", "p", &ciphertext).unwrap()[0], plaintext);
}

#[test]
fn mock_wrap_is_nonce_then_sealed_key() {
    let data_key = [1u8; 32];
    let nonce = [2u8; 12];
    let wrapped = mock_wrap_key(&data_key, &nonce);
    assert_eq!(wrapped[..12].to_vec(), nonce.to_vec());
    let sealed = encrypt_private_key_aes256gcm(&data_key, &[7u8; 32], &nonce).unwrap();
    assert_eq!(wrapped[12..].to_vec(), sealed);
    assert_eq!(mock_unwrap_key(&wrapped).unwrap(), data_key.to_vec());
}

#[test]
fn mock_decrypt_checked_refuses_what_it_cannot_unwrap() {
    assert!(decrypt_checked("r", "a", "s", "t", "p", &[0u8; 11]).is_none());
    assert!(decrypt_checked("r", "a", "s", "t", "p", &[0u8; 60]).is_none());
    assert!(mock_unwrap_key(&[0u8; 5]).is_none());
}
