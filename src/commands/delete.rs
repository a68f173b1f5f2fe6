//! Deleting a secret by identifier or name.

use crate::commands::add::AddType;
use crate::secrets::{lemma_remove_keeps_wf, removed_at, VaultData};
use crate::vault::VaultError;
use vstd::prelude::*;

verus! {

/// The record that a deletion removed.
#[derive(Debug)]
pub struct Deleted {
    pub kind: AddType,
    pub name: String,
}

/// Removes the record that `id_or_name` resolves to, exactly that one; the
/// others stay, in their order. `NotFound` leaves the collection as it was.
pub fn run(data: &mut VaultData, id_or_name: &str) -> (r: Result<Deleted, VaultError>)
    ensures
        match old(data).lookup_spec(id_or_name@) {
            None => r matches Err(VaultError::NotFound) && *final(data) == *old(data),
            Some((k, i)) => {
                &&& r matches Ok(d) && d.kind == k && d.name@ == old(data).keys(k, false)[i]
                &&& removed_at(*old(data), *final(data), k, i)
                &&& old(data).wf() ==> final(data).wf()
            },
        },
{
    let found = match data.lookup(id_or_name) {
        Some(f) => f,
        None => return Err(VaultError::NotFound),
    };
    let ghost before = *data;
    let name = data.remove_at(found.kind, found.index);
    proof {
        if before.wf() {
            lemma_remove_keeps_wf(before, *data, found.kind, found.index as int);
        }
    }
    Ok(Deleted { kind: found.kind, name })
}

} // verus!
