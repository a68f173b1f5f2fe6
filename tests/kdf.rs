use kookie::kdf::{derive_key, generate_salt, KdfError};

#[test]
fn test_key_derivation_consistency() {
    let password = "test_password_123";
    let salt = generate_salt();

    let key1 = derive_key(password, &salt).unwrap();
    let key2 = derive_key(password, &salt).unwrap();

    assert_eq!(key1, key2, "Same password and salt should produce same key");
}

#[test]
fn test_different_passwords_different_keys() {
    let salt = generate_salt();

    let key1 = derive_key("password1", &salt).unwrap();
    let key2 = derive_key("password2", &salt).unwrap();

    assert_ne!(key1, key2, "Different passwords should produce different keys");
}

#[test]
fn test_different_salts_different_keys() {
    let password = "same_password";

    let key1 = derive_key(password, &generate_salt()).unwrap();
    let key2 = derive_key(password, &generate_salt()).unwrap();

    assert_ne!(key1, key2, "Different salts should produce different keys");
}

#[test]
fn generated_salt_is_22_base64_characters() {
    let salt = generate_salt();
    assert_eq!(salt.len(), 22);
    assert!(salt.chars().all(|c| c.is_ascii_alphanumeric() || c == '+' || c == '/'));
    assert_ne!(salt, generate_salt());
}

#[test]
fn too_short_salt_is_invalid() {
    assert!(matches!(derive_key("pw", "abc"), Err(KdfError::InvalidSalt)));
}

#[test]
fn salt_with_forbidden_character_is_invalid() {
    assert!(matches!(derive_key("pw", "abcd efgh ijkl"), Err(KdfError::InvalidSalt)));
}

#[test]
fn too_long_salt_is_invalid() {
    let salt = "a".repeat(65);
    assert!(matches!(derive_key("pw", &salt), Err(KdfError::InvalidSalt)));
}

#[test]
fn salt_too_short_after_decoding_is_a_derivation_error() {
    // A valid salt string of four characters decodes to three bytes, under
    // the eight that Argon2 requires.
    assert!(matches!(derive_key("pw", "abcd"), Err(KdfError::DerivationError(_))));
}

#[test]
fn generated_salt_encodes_sixteen_bytes() {
    for _ in 0..20 {
        let salt = generate_salt();
        let last = salt.chars().last().unwrap();
        assert!("AQgw".contains(last), "{}", salt);
    }
}
