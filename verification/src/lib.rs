//! Resource-lifecycle manager for a memory-hard proof-of-work engine.
//!
//! The engine itself (cache initialization, dataset population, virtual
//! machine execution) is an opaque native capability that lives outside this
//! crate.  What is managed — and verified — here is the lifecycle around it:
//! capability-flag negotiation with graceful fallback, seed changes, dataset
//! population planning, VM pooling and rebinding, and deferred retirement of
//! superseded cache/dataset generations.
//!
//! The host's answers to allocation requests (which may legitimately be
//! refused, e.g. when huge pages are unavailable) enter the library as
//! explicit outcome values; every state transition is then a total, verified
//! function of the current state and that outcome.

use vstd::prelude::*;

pub mod laws;
pub mod model;
pub mod partition;
pub mod types;
mod utils;

pub use types::RxAction;
pub use types::RxState;
pub use types::RxVM;
pub use utils::u64_to_be_bytes;

verus! {

/// Overwrites the trailing 8 bytes of `input` with the big-endian encoding of
/// `nonce`, leaving every other byte unchanged.  Hashing callers splice the
/// nonce into their buffer this way before handing it to the engine.
pub fn splice_nonce(input: &mut Vec<u8>, nonce: u64)
    requires
        old(input)@.len() >= 8,
    ensures
        final(input)@.len() == old(input)@.len(),
        forall|i: int|
            0 <= i < old(input)@.len() - 8 ==> final(input)@[i] == old(input)@[i],
        forall|i: int|
            0 <= i < 8 ==> final(input)@[old(input)@.len() - 8 + i] == utils::u64_be_byte(
                nonce,
                i,
            ),
{
    let bytes = u64_to_be_bytes(nonce);
    let base = input.len() - 8;
    let mut i: usize = 0;
    while i < 8
        invariant
            0 <= i <= 8,
            base <= usize::MAX - 8,
            base == old(input)@.len() - 8,
            bytes@.len() == 8,
            input@.len() == old(input)@.len(),
            forall|j: int| 0 <= j < base ==> input@[j] == old(input)@[j],
            forall|j: int| 0 <= j < i ==> input@[base + j] == utils::u64_be_byte(nonce, j),
            forall|j: int| 0 <= j < 8 ==> bytes@[j] == utils::u64_be_byte(nonce, j),
        decreases 8 - i,
    {
        let b = bytes[i];
        input.set(base + i, b);
        i = i + 1;
    }
}

} // verus!
