//! Byte-level helpers: big-endian encoding of a 64-bit nonce.

use vstd::prelude::*;

verus! {

/// Byte `i` (0 = most significant) of the big-endian encoding of `v`.
pub open spec fn u64_be_byte(v: u64, i: int) -> u8 {
    if i == 0 {
        (v >> 56) as u8
    } else if i == 1 {
        (v >> 48) as u8
    } else if i == 2 {
        (v >> 40) as u8
    } else if i == 3 {
        (v >> 32) as u8
    } else if i == 4 {
        (v >> 24) as u8
    } else if i == 5 {
        (v >> 16) as u8
    } else if i == 6 {
        (v >> 8) as u8
    } else {
        v as u8
    }
}

/// The 8-byte big-endian encoding of `v`.
pub fn u64_to_be_bytes(v: u64) -> (r: Vec<u8>)
    ensures
        r@.len() == 8,
        forall|i: int| 0 <= i < 8 ==> r@[i] == u64_be_byte(v, i),
{
    let mut r: Vec<u8> = Vec::new();
    r.push(#[verifier::truncate] ((v >> 56) as u8));
    r.push(#[verifier::truncate] ((v >> 48) as u8));
    r.push(#[verifier::truncate] ((v >> 40) as u8));
    r.push(#[verifier::truncate] ((v >> 32) as u8));
    r.push(#[verifier::truncate] ((v >> 24) as u8));
    r.push(#[verifier::truncate] ((v >> 16) as u8));
    r.push(#[verifier::truncate] ((v >> 8) as u8));
    r.push(#[verifier::truncate] (v as u8));
    r
}

} // verus!
