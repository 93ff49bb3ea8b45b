use nomi::settings::crypto::{decrypt, encrypt, parse_key, CryptoError};

const KEY: [u8; 32] = [7u8; 32];

#[test]
fn encrypt_decrypt_roundtrip_recovers_the_plaintext() {
    let ciphertext = encrypt(&KEY, "sk-super-secret-key");
    let plaintext = decrypt(&KEY, &ciphertext).unwrap();
    assert_eq!(plaintext, "sk-super-secret-key");
}

#[test]
fn decrypt_rejects_tampered_ciphertext() {
    let mut ciphertext = encrypt(&KEY, "sk-super-secret-key");
    let last = ciphertext.len() - 1;
    ciphertext[last] ^= 0xFF;
    assert!(matches!(decrypt(&KEY, &ciphertext), Err(CryptoError::DecryptionFailed)));
}

#[test]
fn decrypt_rejects_the_wrong_key() {
    let ciphertext = encrypt(&KEY, "sk-super-secret-key");
    let wrong_key = [9u8; 32];
    assert!(matches!(decrypt(&wrong_key, &ciphertext), Err(CryptoError::DecryptionFailed)));
}

#[test]
fn parse_key_accepts_64_hex_chars() {
    let hex_str = "07".repeat(32);
    assert_eq!(parse_key(&hex_str), Some(KEY));
}

#[test]
fn parse_key_rejects_wrong_length() {
    assert_eq!(parse_key("07"), None);
}

#[test]
fn parse_key_rejects_non_hex() {
    assert_eq!(parse_key(&"zz".repeat(32)), None);
}

#[test]
fn parse_key_reads_upper_case_hex_too() {
    let hex_str = "AB".repeat(32);
    assert_eq!(parse_key(&hex_str), Some([0xABu8; 32]));
}

#[test]
fn ciphertext_leads_with_a_twelve_byte_nonce_and_differs_from_the_plaintext() {
    let ciphertext = encrypt(&KEY, "abc");
    // nonce (12) + ciphertext (3) + tag (16)
    assert_eq!(ciphertext.len(), 12 + 3 + 16);
    assert_ne!(&ciphertext[12..15], b"abc");
}

#[test]
fn decrypt_rejects_data_shorter_than_a_nonce() {
    assert_eq!(decrypt(&KEY, &[1, 2, 3]), Err(CryptoError::DecryptionFailed));
}

#[test]
fn encrypting_twice_uses_fresh_nonces() {
    let a = encrypt(&KEY, "same");
    let b = encrypt(&KEY, "same");
    assert_ne!(a, b);
    assert_eq!(decrypt(&KEY, &a).unwrap(), decrypt(&KEY, &b).unwrap());
}

#[test]
fn an_empty_plaintext_round_trips() {
    let ciphertext = encrypt(&KEY, "");
    assert_eq!(decrypt(&KEY, &ciphertext).unwrap(), "");
}
