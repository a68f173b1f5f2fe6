//! Creating the vault.

use crate::cipher::PLAINTEXT_MAX;
use crate::kdf::{derived_key, phc_salt_ok, MAX_PASSWORD_BYTES};
use crate::session::{clear_session, SessionStore};
use crate::vault::{sealed_for, Vault, VaultError};
use vstd::prelude::*;
use vstd::utf8::encode_utf8;

verus! {

/// Creates the vault with `password`, sealing `plaintext` (the serialized
/// empty collection). An existing vault is replaced only with `force`, and a
/// forced re-initialization also removes the session, whose key no longer
/// opens anything.
pub fn run(
    vault: &mut Vault,
    store: &mut SessionStore,
    password: &str,
    plaintext: &[u8],
    force: bool,
) -> (r: Result<(), VaultError>)
    ensures
        r matches Err(VaultError::AlreadyExists) <==> old(vault).file_view() is Some && !force,
        r is Ok <==> !(old(vault).file_view() is Some && !force) && plaintext@.len() <= PLAINTEXT_MAX
            && encode_utf8(password@).len() <= MAX_PASSWORD_BYTES,
        r is Err ==> final(vault).file_view() == old(vault).file_view() && final(vault).key_view()
            == old(vault).key_view() && final(store)@ == old(store)@,
        r is Ok ==> {
            &&& final(vault).file_view() matches Some(f)
            &&& phc_salt_ok(f.salt)
            &&& sealed_for(f, password@, plaintext@)
            &&& final(vault).key_view() == derived_key(password@, f.salt)
            &&& if force {
                final(store)@ is None
            } else {
                final(store)@ == old(store)@
            }
        },
{
    vault.init(password, plaintext, force)?;
    if force {
        clear_session(store);
    }
    Ok(())
}

} // verus!
