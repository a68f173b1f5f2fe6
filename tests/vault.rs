use kookie::session::{save_session, SessionStore};
use kookie::cipher::decrypt;
use kookie::kdf::derive_key;
use kookie::vault::{Vault, VaultError, VaultFile};

const EMPTY: &[u8] = b"{\"passwords\":[]}";

#[test]
fn init_then_unlock_with_same_password_gives_the_payload() {
    let mut vault = Vault::new(None);
    assert!(!vault.is_initialized());
    vault.init("secret", EMPTY, false).unwrap();
    assert!(vault.is_initialized());
    assert!(vault.is_unlocked());
    let file = vault.file().unwrap();
    let stored = VaultFile { salt: file.salt.clone(), encrypted_data: file.encrypted_data.clone() };

    let mut fresh = Vault::new(Some(stored));
    assert!(!fresh.is_unlocked());
    assert_eq!(fresh.unlock("secret").unwrap(), EMPTY.to_vec());
    assert!(fresh.is_unlocked());
}

#[test]
fn wrong_password_fails_generically_and_keeps_the_file() {
    let mut vault = Vault::new(None);
    vault.init("secret", EMPTY, false).unwrap();
    let file = vault.file().unwrap();
    let salt = file.salt.clone();
    let data = file.encrypted_data.clone();

    let mut fresh = Vault::new(Some(VaultFile { salt: salt.clone(), encrypted_data: data.clone() }));
    assert!(matches!(fresh.unlock("wrong"), Err(VaultError::UnlockFailed)));
    assert!(!fresh.is_unlocked());
    let after = fresh.file().unwrap();
    assert_eq!(after.salt, salt);
    assert_eq!(after.encrypted_data, data);
}

#[test]
fn init_without_force_keeps_an_existing_vault() {
    let existing = VaultFile { salt: "c29tZXNhbHR2YWx1ZQ".to_string(), encrypted_data: "AAAA".to_string() };
    let mut vault = Vault::new(Some(existing));
    assert!(matches!(vault.init("pw", EMPTY, false), Err(VaultError::AlreadyExists)));
    assert_eq!(vault.file().unwrap().encrypted_data, "AAAA");
    assert!(!vault.is_unlocked());
}

#[test]
fn init_with_force_replaces_the_vault() {
    let existing = VaultFile { salt: "c29tZXNhbHR2YWx1ZQ".to_string(), encrypted_data: "AAAA".to_string() };
    let mut vault = Vault::new(Some(existing));
    vault.init("pw", EMPTY, true).unwrap();
    let file = vault.file().unwrap();
    assert_ne!(file.encrypted_data, "AAAA");
    let key = derive_key("pw", &file.salt).unwrap();
    assert_eq!(vault.key(), Some(key));
    assert_eq!(decrypt(&key, &file.encrypted_data).unwrap(), EMPTY.to_vec());
}

#[test]
fn unlock_of_missing_vault_is_not_initialized() {
    let mut vault = Vault::new(None);
    assert!(matches!(vault.unlock("pw"), Err(VaultError::NotInitialized)));
}

#[test]
fn unlock_with_malformed_salt_is_the_generic_failure() {
    let file = VaultFile { salt: "!".to_string(), encrypted_data: "AAAA".to_string() };
    let mut vault = Vault::new(Some(file));
    assert!(matches!(vault.unlock("pw"), Err(VaultError::UnlockFailed)));
}

#[test]
fn save_reseals_under_the_same_key_and_salt() {
    let mut vault = Vault::new(None);
    vault.init("secret", EMPTY, false).unwrap();
    let salt = vault.file().unwrap().salt.clone();
    let first = vault.file().unwrap().encrypted_data.clone();
    let key = vault.key().unwrap();

    vault.save(b"changed").unwrap();
    let file = vault.file().unwrap();
    assert_eq!(file.salt, salt);
    assert_ne!(file.encrypted_data, first);
    assert_eq!(vault.key(), Some(key));
    assert_eq!(decrypt(&key, &file.encrypted_data).unwrap(), b"changed".to_vec());

    let stored = VaultFile { salt: file.salt.clone(), encrypted_data: file.encrypted_data.clone() };
    let mut fresh = Vault::new(Some(stored));
    assert_eq!(fresh.unlock("secret").unwrap(), b"changed".to_vec());
}

#[test]
fn save_needs_an_unlocked_vault() {
    let file = VaultFile { salt: "c29tZXNhbHR2YWx1ZQ".to_string(), encrypted_data: "AAAA".to_string() };
    let mut vault = Vault::new(Some(file));
    assert!(matches!(vault.save(b"x"), Err(VaultError::Locked)));
    assert_eq!(vault.file().unwrap().encrypted_data, "AAAA");
    let mut empty = Vault::new(None);
    assert!(matches!(empty.save(b"x"), Err(VaultError::NotInitialized)));
}

#[test]
fn unlock_with_key_opens_or_rejects() {
    let mut vault = Vault::new(None);
    vault.init("secret", EMPTY, false).unwrap();
    let key = vault.key().unwrap();
    let file = vault.file().unwrap();
    let stored = || VaultFile { salt: file.salt.clone(), encrypted_data: file.encrypted_data.clone() };

    let mut good = Vault::new(Some(stored()));
    assert_eq!(good.unlock_with_key(&key).unwrap(), EMPTY.to_vec());
    assert_eq!(good.key(), Some(key));

    let mut bad = Vault::new(Some(stored()));
    assert!(matches!(bad.unlock_with_key(&[0u8; 32]), Err(VaultError::SessionRejected)));
    assert!(!bad.is_unlocked());
}

#[test]
fn init_command_on_fresh_vault_opens_with_the_password() {
    let mut store = SessionStore { record: None };
    save_session(&mut store, &[3u8; 32], 10, 0, &[0u8; 32]);
    let mut vault = Vault::new(None);
    kookie::commands::init::run(&mut vault, &mut store, "pw", EMPTY, false).unwrap();
    assert!(store.record.is_some());
    let file = vault.file().unwrap();
    let mut fresh = Vault::new(Some(VaultFile { salt: file.salt.clone(), encrypted_data: file.encrypted_data.clone() }));
    assert_eq!(fresh.unlock("pw").unwrap(), EMPTY.to_vec());
}

#[test]
fn forced_init_command_replaces_the_vault_and_clears_the_session() {
    let existing = VaultFile { salt: "c29tZXNhbHR2YWx1ZQ".to_string(), encrypted_data: "AAAA".to_string() };
    let mut store = SessionStore { record: None };
    save_session(&mut store, &[3u8; 32], 10, 0, &[0u8; 32]);
    let mut vault = Vault::new(Some(existing));
    assert!(matches!(
        kookie::commands::init::run(&mut vault, &mut store, "pw2", EMPTY, false),
        Err(VaultError::AlreadyExists)
    ));
    assert!(store.record.is_some());
    assert_eq!(vault.file().unwrap().encrypted_data, "AAAA");
    kookie::commands::init::run(&mut vault, &mut store, "pw2", EMPTY, true).unwrap();
    assert!(store.record.is_none());
    let file = vault.file().unwrap();
    assert_ne!(file.salt, "c29tZXNhbHR2YWx1ZQ");
    let mut fresh = Vault::new(Some(VaultFile { salt: file.salt.clone(), encrypted_data: file.encrypted_data.clone() }));
    assert_eq!(fresh.unlock("pw2").unwrap(), EMPTY.to_vec());
}
