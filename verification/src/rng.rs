//! The secure random source behind credential generation.

use vstd::prelude::*;

verus! {

/// Relies on `rand::Rng::fill` over `rand::thread_rng()`: fills the buffer
/// from the thread-local CSPRNG. Nothing is assumed of the bytes beyond
/// their number; a failure of the generator aborts rather than returning.
#[verifier::external_body]
pub(crate) fn random_bytes(n: usize) -> (r: Vec<u8>)
    ensures
        r@.len() == n,
{
    let mut buf = vec![0u8; n];
    rand::Rng::fill(&mut rand::thread_rng(), buf.as_mut_slice());
    buf
}

} // verus!
