//! Locking and unlocking: the session cache decides whether the password
//! is needed.

use crate::session::{cache_read, clear_session, get_cached_key, save_session, saved_session, SessionStore};
use crate::vault::{bytes_result, unlock_spec, Vault, VaultError};
use crate::cipher::decrypt_spec;
use crate::kdf::derived_key;
use vstd::prelude::*;

verus! {

/// Locks the vault: the session is removed, so the next command asks for
/// the master password.
pub fn lock(store: &mut SessionStore)
    ensures
        final(store)@ is None,
{
    clear_session(store);
}

/// Whether a valid session holds the key at `now`, so that unlocking has
/// nothing to do; an expired session is removed.
pub fn already_unlocked(store: &mut SessionStore, now: i64, machine_key: &[u8; 32]) -> (r: bool)
    ensures
        ({
            let (k, after) = cache_read(old(store)@, now, machine_key@);
            &&& final(store)@ == after
            &&& r == k is Some
        }),
{
    get_cached_key(store, now, machine_key).is_some()
}

/// Unlocks the vault with a password and, on success, caches the derived key
/// for `timeout_minutes` from `now` (a timeout of 0 caches nothing).
pub fn unlock(
    vault: &mut Vault,
    password: &str,
    timeout_minutes: u32,
    store: &mut SessionStore,
    now: i64,
    machine_key: &[u8; 32],
) -> (r: Result<Vec<u8>, VaultError>)
    ensures
        final(vault).file_view() == old(vault).file_view(),
        match old(vault).file_view() {
            None => r matches Err(VaultError::NotInitialized),
            Some(f) => bytes_result(r) == unlock_spec(f, password@),
        },
        r is Ok ==> final(store)@ == saved_session(
            old(store)@,
            final(vault).key_view()->Some_0,
            timeout_minutes,
            now,
            machine_key@,
        ),
        r is Ok ==> final(vault).key_view() is Some,
        r is Ok ==> final(vault).key_view() == derived_key(
            password@,
            old(vault).file_view()->Some_0.salt,
        ),
        r is Err ==> final(store)@ == old(store)@ && final(vault).key_view() == old(vault).key_view(),
{
    let payload = vault.unlock(password)?;
    match vault.key() {
        Some(key) => save_session(store, &key, timeout_minutes, now, machine_key),
        None => {},
    }
    Ok(payload)
}

/// Opens the vault with a cached session key, if the session holds one at
/// `now`; `None` means the password is needed. An expired session is removed.
pub fn unlock_from_session(
    vault: &mut Vault,
    store: &mut SessionStore,
    now: i64,
    machine_key: &[u8; 32],
) -> (r: Option<Result<Vec<u8>, VaultError>>)
    ensures
        final(vault).file_view() == old(vault).file_view(),
        ({
            let (k, after) = cache_read(old(store)@, now, machine_key@);
            &&& final(store)@ == after
            &&& match k {
                None => r is None && final(vault).key_view() == old(vault).key_view(),
                Some(key) => r matches Some(res) && match old(vault).file_view() {
                    None => res matches Err(VaultError::NotInitialized),
                    Some(f) => match decrypt_spec(key, f.encrypted_data) {
                        Ok(p) => res matches Ok(v) && v@ == p && final(vault).key_view() == Some(
                            key,
                        ),
                        Err(_) => res matches Err(VaultError::SessionRejected),
                    },
                },
            }
        }),
{
    match get_cached_key(store, now, machine_key) {
        None => None,
        Some(key) => Some(vault.unlock_with_key(&key)),
    }
}

} // verus!
