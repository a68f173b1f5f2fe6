//! The vault: the stored file (salt and encrypted payload) and the
//! uninitialized / locked / unlocked state machine around it.
//!
//! The payload is the serialized secret collection; this module seals and
//! opens it as bytes. Every change re-encrypts the whole payload with a fresh
//! nonce under the same key and salt, and the file is replaced as a whole: a
//! failed encryption leaves the vault exactly as it was.

use crate::cipher::{decrypt, decrypt_spec, encrypt, lemma_decrypt_inverts_encrypt, sealed_by, CipherError, PLAINTEXT_MAX};
use crate::kdf::{derive_key, derived_key, generate_salt, phc_salt_ok, KdfError, MAX_PASSWORD_BYTES};
use vstd::utf8::encode_utf8;
use vstd::prelude::*;

verus! {

/// The vault file: the salt of the key derivation and the encrypted payload.
#[derive(Debug)]
pub struct VaultFile {
    pub salt: String,
    pub encrypted_data: String,
}

/// A vault file seen as values.
pub struct VaultFileView {
    pub salt: Seq<char>,
    pub encrypted_data: Seq<char>,
}

impl View for VaultFile {
    type V = VaultFileView;

    open spec fn view(&self) -> VaultFileView {
        VaultFileView { salt: self.salt@, encrypted_data: self.encrypted_data@ }
    }
}

/// Why a vault operation failed.
#[derive(Debug)]
pub enum VaultError {
    /// `init` without `force` on an existing vault.
    AlreadyExists,
    /// There is no vault file yet.
    NotInitialized,
    /// The operation needs an unlocked vault.
    Locked,
    /// Wrong password or corrupted vault: one outcome, whatever the cause.
    UnlockFailed,
    /// The cached session key does not open the vault.
    SessionRejected,
    /// No key could be derived from the password.
    KeyDerivation(KdfError),
    /// The payload could not be encrypted.
    Encryption(CipherError),
    /// No secret matches the given identifier or name.
    NotFound,
}

/// Where the vault stands.
#[derive(Debug)]
pub enum VaultState {
    /// No vault file exists.
    Uninitialized,
    /// The file exists and no key is held.
    Locked(VaultFile),
    /// The file exists and its key is held for this execution.
    Unlocked(VaultFile, [u8; 32]),
}

/// The vault of one execution.
#[derive(Debug)]
pub struct Vault {
    pub state: VaultState,
}

/// `f` holds `plaintext` sealed under the key that `password` derives with
/// its salt.
pub open spec fn sealed_for(f: VaultFileView, password: Seq<char>, plaintext: Seq<u8>) -> bool {
    match derived_key(password, f.salt) {
        Some(k) => sealed_by(k, plaintext, f.encrypted_data),
        None => false,
    }
}

/// What unlocking a vault file with a password gives.
pub open spec fn unlock_spec(f: VaultFileView, password: Seq<char>) -> Result<Seq<u8>, VaultError> {
    match derived_key(password, f.salt) {
        None => Err(VaultError::UnlockFailed),
        Some(k) => match decrypt_spec(k, f.encrypted_data) {
            Ok(p) => Ok(p),
            Err(_) => Err(VaultError::UnlockFailed),
        },
    }
}

/// A vault file sealed for a password unlocks with that password to the
/// plaintext it holds.
pub proof fn lemma_unlock_returns_sealed_plaintext(
    f: VaultFileView,
    password: Seq<char>,
    plaintext: Seq<u8>,
)
    requires
        sealed_for(f, password, plaintext),
    ensures
        unlock_spec(f, password) == Ok::<Seq<u8>, VaultError>(plaintext),
{
    let k = derived_key(password, f.salt)->Some_0;
    lemma_decrypt_inverts_encrypt(k, plaintext, f.encrypted_data);
}

/// Unlocking never tells a wrong password from a damaged file: every failure
/// is the one `UnlockFailed`.
pub proof fn lemma_unlock_failure_is_generic(f: VaultFileView, password: Seq<char>)
    ensures
        unlock_spec(f, password) is Err ==> unlock_spec(f, password) matches Err(
            VaultError::UnlockFailed,
        ),
{
}

/// The view of a byte result.
pub open spec fn bytes_result(r: Result<Vec<u8>, VaultError>) -> Result<Seq<u8>, VaultError> {
    match r {
        Ok(v) => Ok(v@),
        Err(e) => Err(e),
    }
}

impl Vault {
    /// The file of the vault, if there is one.
    pub open spec fn file_view(&self) -> Option<VaultFileView> {
        match self.state {
            VaultState::Uninitialized => None,
            VaultState::Locked(f) => Some(f@),
            VaultState::Unlocked(f, _) => Some(f@),
        }
    }

    /// The key held, if the vault is unlocked.
    pub open spec fn key_view(&self) -> Option<Seq<u8>> {
        match self.state {
            VaultState::Unlocked(_, k) => Some(k@),
            _ => None,
        }
    }

    /// A locked vault for the file read from disk, or an uninitialized one.
    pub fn new(file: Option<VaultFile>) -> (r: Vault)
        ensures
            r.file_view() == match file {
                Some(f) => Some(f@),
                None => None::<VaultFileView>,
            },
            r.key_view() is None,
    {
        match file {
            Some(f) => Vault { state: VaultState::Locked(f) },
            None => Vault { state: VaultState::Uninitialized },
        }
    }

    /// Whether a vault file exists.
    pub fn is_initialized(&self) -> (r: bool)
        ensures
            r == self.file_view() is Some,
    {
        match &self.state {
            VaultState::Uninitialized => false,
            _ => true,
        }
    }

    /// Whether the key is held.
    pub fn is_unlocked(&self) -> (r: bool)
        ensures
            r == self.key_view() is Some,
    {
        match &self.state {
            VaultState::Unlocked(_, _) => true,
            _ => false,
        }
    }

    /// The vault file, if there is one.
    pub fn file(&self) -> (r: Option<&VaultFile>)
        ensures
            match r {
                Some(f) => self.file_view() == Some(f@),
                None => self.file_view() is None,
            },
    {
        match &self.state {
            VaultState::Uninitialized => None,
            VaultState::Locked(f) => Some(f),
            VaultState::Unlocked(f, _) => Some(f),
        }
    }

    /// The key held, if the vault is unlocked.
    pub fn key(&self) -> (r: Option<[u8; 32]>)
        ensures
            match r {
                Some(k) => self.key_view() == Some(k@),
                None => self.key_view() is None,
            },
    {
        match &self.state {
            VaultState::Unlocked(_, k) => Some(*k),
            _ => None,
        }
    }

    /// Creates the vault: a fresh salt, the key derived from `password`, and
    /// `plaintext` (the serialized empty collection) sealed under it. An
    /// existing vault is replaced only with `force`.
    pub fn init(&mut self, password: &str, plaintext: &[u8], force: bool) -> (r: Result<
        (),
        VaultError,
    >)
        ensures
            r matches Err(VaultError::AlreadyExists) <==> old(self).file_view() is Some && !force,
            r is Err ==> final(self).file_view() == old(self).file_view() && final(self).key_view()
                == old(self).key_view(),
            r is Ok <==> !(old(self).file_view() is Some && !force) && plaintext@.len()
                <= PLAINTEXT_MAX && encode_utf8(password@).len() <= MAX_PASSWORD_BYTES,
            r matches Err(VaultError::Encryption(_)) ==> plaintext@.len() > PLAINTEXT_MAX,
            r matches Err(VaultError::KeyDerivation(_)) ==> encode_utf8(password@).len()
                > MAX_PASSWORD_BYTES,
            r matches Err(VaultError::Locked) ==> false,
            r matches Err(VaultError::NotInitialized) ==> false,
            r matches Err(VaultError::UnlockFailed) ==> false,
            r matches Err(VaultError::SessionRejected) ==> false,
            r matches Err(VaultError::NotFound) ==> false,
            r is Ok ==> {
                &&& final(self).file_view() matches Some(f)
                &&& phc_salt_ok(f.salt)
                &&& sealed_for(f, password@, plaintext@)
                &&& final(self).key_view() == derived_key(password@, f.salt)
            },
    {
        if self.is_initialized() && !force {
            return Err(VaultError::AlreadyExists);
        }
        let salt = generate_salt();
        let key = match derive_key(password, salt.as_str()) {
            Ok(k) => k,
            Err(e) => return Err(VaultError::KeyDerivation(e)),
        };
        let blob = match encrypt(&key, plaintext) {
            Ok(b) => b,
            Err(e) => return Err(VaultError::Encryption(e)),
        };
        self.state = VaultState::Unlocked(VaultFile { salt, encrypted_data: blob }, key);
        Ok(())
    }

    /// Unlocks the vault with a password and returns the decrypted payload.
    /// Any failure is the one generic `UnlockFailed`; the file never changes.
    pub fn unlock(&mut self, password: &str) -> (r: Result<Vec<u8>, VaultError>)
        ensures
            final(self).file_view() == old(self).file_view(),
            match old(self).file_view() {
                None => r matches Err(VaultError::NotInitialized),
                Some(f) => bytes_result(r) == unlock_spec(f, password@),
            },
            r is Ok ==> final(self).key_view() == derived_key(
                password@,
                old(self).file_view()->Some_0.salt,
            ),
            r is Err ==> final(self).key_view() == old(self).key_view(),
    {
        let (key, payload) = match &self.state {
            VaultState::Uninitialized => return Err(VaultError::NotInitialized),
            VaultState::Locked(f) | VaultState::Unlocked(f, _) => {
                let key = match derive_key(password, f.salt.as_str()) {
                    Ok(k) => k,
                    Err(_) => return Err(VaultError::UnlockFailed),
                };
                let payload = match decrypt(&key, f.encrypted_data.as_str()) {
                    Ok(p) => p,
                    Err(_) => return Err(VaultError::UnlockFailed),
                };
                (key, payload)
            },
        };
        self.hold_key(key);
        Ok(payload)
    }

    /// Unlocks the vault with a key kept by the session cache.
    pub fn unlock_with_key(&mut self, key: &[u8; 32]) -> (r: Result<Vec<u8>, VaultError>)
        ensures
            final(self).file_view() == old(self).file_view(),
            match old(self).file_view() {
                None => r matches Err(VaultError::NotInitialized),
                Some(f) => match decrypt_spec(key@, f.encrypted_data) {
                    Ok(p) => r matches Ok(v) && v@ == p,
                    Err(_) => r matches Err(VaultError::SessionRejected),
                },
            },
            r is Ok ==> final(self).key_view() == Some(key@),
            r is Err ==> final(self).key_view() == old(self).key_view(),
    {
        let payload = match &self.state {
            VaultState::Uninitialized => return Err(VaultError::NotInitialized),
            VaultState::Locked(f) | VaultState::Unlocked(f, _) => {
                match decrypt(key, f.encrypted_data.as_str()) {
                    Ok(p) => p,
                    Err(_) => return Err(VaultError::SessionRejected),
                }
            },
        };
        self.hold_key(*key);
        Ok(payload)
    }

    fn hold_key(&mut self, key: [u8; 32])
        requires
            old(self).file_view() is Some,
        ensures
            final(self).file_view() == old(self).file_view(),
            final(self).key_view() == Some(key@),
    {
        let file = match &self.state {
            VaultState::Locked(f) | VaultState::Unlocked(f, _) => VaultFile {
                salt: f.salt.clone(),
                encrypted_data: f.encrypted_data.clone(),
            },
            VaultState::Uninitialized => return ,
        };
        self.state = VaultState::Unlocked(file, key);
    }

    /// Re-encrypts the whole payload with a fresh nonce under the held key
    /// and the same salt, and replaces the file's payload. On failure the
    /// vault is as it was.
    pub fn save(&mut self, plaintext: &[u8]) -> (r: Result<(), VaultError>)
        ensures
            final(self).key_view() == old(self).key_view(),
            match old(self).state {
                VaultState::Uninitialized => r matches Err(VaultError::NotInitialized),
                VaultState::Locked(_) => r matches Err(VaultError::Locked),
                VaultState::Unlocked(_, _) => r is Ok <==> plaintext@.len() <= PLAINTEXT_MAX,
            },
            r is Err ==> final(self).file_view() == old(self).file_view(),
            r is Err ==> r matches Err(VaultError::Encryption(_)) || r matches Err(
                VaultError::Locked,
            ) || r matches Err(VaultError::NotInitialized),
            r is Ok ==> {
                &&& final(self).file_view() matches Some(f)
                &&& f.salt == old(self).file_view()->Some_0.salt
                &&& sealed_by(final(self).key_view()->Some_0, plaintext@, f.encrypted_data)
            },
    {
        let (salt, blob, key) = match &self.state {
            VaultState::Uninitialized => return Err(VaultError::NotInitialized),
            VaultState::Locked(_) => return Err(VaultError::Locked),
            VaultState::Unlocked(f, k) => {
                let blob = match encrypt(k, plaintext) {
                    Ok(b) => b,
                    Err(e) => return Err(VaultError::Encryption(e)),
                };
                (f.salt.clone(), blob, *k)
            },
        };
        self.state = VaultState::Unlocked(VaultFile { salt, encrypted_data: blob }, key);
        Ok(())
    }
}

} // verus!
