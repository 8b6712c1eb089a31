//! Clearing secret bytes from memory.

use vstd::prelude::*;
use zeroize::Zeroize;

verus! {

/// `n` zero bytes.
pub open spec fn zeros(n: nat) -> Seq<u8> {
    Seq::new(n, |i: int| 0u8)
}

/// `zeroize::Zeroize::zeroize` on a byte slice. It overwrites every byte of
/// the slice with zero, by writes that the compiler may not remove, and
/// leaves the length as it was.
#[verifier::external_body]
pub(crate) fn wipe_bytes(buffer: &mut Vec<u8>)
    ensures
        final(buffer)@ == zeros(old(buffer)@.len()),
{
    buffer.as_mut_slice().zeroize();
}

} // verus!
