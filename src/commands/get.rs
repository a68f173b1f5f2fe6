//! Finding a secret by identifier or name.

use crate::secrets::{found_view, Found, VaultData};
use vstd::prelude::*;

verus! {

/// Resolves `id_or_name` to a record: the first whose identifier matches,
/// else the first whose name matches, in search order.
pub fn run(data: &VaultData, id_or_name: &str) -> (r: Option<Found>)
    ensures
        found_view(r) == data.lookup_spec(id_or_name@),
        r matches Some(f) ==> f.index < data.group_len(f.kind),
{
    data.lookup(id_or_name)
}

} // verus!
