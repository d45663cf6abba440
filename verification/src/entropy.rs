//! Random bytes from the operating system.

use vstd::prelude::*;

verus! {

/// `getrandom::fill` on a fresh `N`-byte buffer. Nothing is claimed of the bytes
/// (they come from the system's random source) nor of when the call fails.
#[verifier::external_body]
pub(crate) fn random_bytes<const N: usize>() -> (r: Result<[u8; N], ::getrandom::Error>) {
    let mut buf = [0u8; N];
    match ::getrandom::fill(&mut buf) {
        Ok(()) => Ok(buf),
        Err(e) => Err(e),
    }
}

} // verus!
