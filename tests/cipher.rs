use kookie::cipher::{decrypt, encrypt, CipherError};

#[test]
fn test_encrypt_decrypt_roundtrip() {
    let key = [0x42u8; 32];
    let plaintext = b"Hello, World! This is a secret message.";

    let encrypted = encrypt(&key, plaintext).unwrap();
    let decrypted = decrypt(&key, &encrypted).unwrap();

    assert_eq!(plaintext.as_slice(), decrypted.as_slice());
}

#[test]
fn test_wrong_key_fails() {
    let key1 = [0x42u8; 32];
    let key2 = [0x43u8; 32];
    let plaintext = b"Secret data";

    let encrypted = encrypt(&key1, plaintext).unwrap();
    let result = decrypt(&key2, &encrypted);

    assert!(result.is_err());
}

#[test]
fn test_different_encryptions_different_output() {
    let key = [0x42u8; 32];
    let plaintext = b"Same message";

    let encrypted1 = encrypt(&key, plaintext).unwrap();
    let encrypted2 = encrypt(&key, plaintext).unwrap();

    assert_ne!(encrypted1, encrypted2);
}

#[test]
fn wrong_key_is_the_generic_failure() {
    let encrypted = encrypt(&[1u8; 32], b"payload").unwrap();
    assert_eq!(decrypt(&[2u8; 32], &encrypted), Err(CipherError::DecryptionFailed));
}

#[test]
fn empty_plaintext_round_trips() {
    let key = [7u8; 32];
    let encrypted = encrypt(&key, b"").unwrap();
    assert_eq!(decrypt(&key, &encrypted).unwrap(), Vec::<u8>::new());
}

#[test]
fn blob_is_base64_of_nonce_ciphertext_and_tag() {
    // 12 nonce bytes, 5 ciphertext bytes, 16 tag bytes: 33 bytes, 44 base64 characters.
    let encrypted = encrypt(&[9u8; 32], b"hello").unwrap();
    assert_eq!(encrypted.len(), 44);
    assert_ne!(encrypted.as_bytes(), b"hello");
}

#[test]
fn non_base64_blob_is_invalid_format() {
    assert_eq!(decrypt(&[0u8; 32], "not base64!!"), Err(CipherError::InvalidFormat));
}

#[test]
fn blob_shorter_than_a_nonce_is_invalid_format() {
    // "AAAA" decodes to three bytes.
    assert_eq!(decrypt(&[0u8; 32], "AAAA"), Err(CipherError::InvalidFormat));
}

#[test]
fn nonce_without_ciphertext_fails_authentication() {
    // Sixteen base64 characters decode to twelve bytes: a nonce and nothing else.
    assert_eq!(decrypt(&[0u8; 32], "AAAAAAAAAAAAAAAA"), Err(CipherError::DecryptionFailed));
}

#[test]
fn tampered_blob_fails_authentication() {
    let key = [5u8; 32];
    let encrypted = encrypt(&key, b"do not touch").unwrap();
    let mut chars: Vec<char> = encrypted.chars().collect();
    let i = 20;
    chars[i] = if chars[i] == 'A' { 'B' } else { 'A' };
    let tampered: String = chars.into_iter().collect();
    assert_eq!(decrypt(&key, &tampered), Err(CipherError::DecryptionFailed));
}
