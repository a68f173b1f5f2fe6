//! Random bytes from the operating system's generator.

use rand::RngCore;
use vstd::prelude::*;

verus! {

/// Relies on `rand::thread_rng` and `RngCore::fill_bytes`: the buffer keeps
/// its length and is filled with random bytes.
#[verifier::external_body]
pub(crate) fn random_bytes(len: usize) -> (r: Vec<u8>)
    ensures
        r@.len() == len,
{
    let mut buf = vec![0u8; len];
    rand::thread_rng().fill_bytes(&mut buf);
    buf
}

} // verus!
