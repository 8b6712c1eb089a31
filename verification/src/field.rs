//! The scalar field in which secret exponents and commitment randomness
//! live: the integers below the order of the BLS12-381 groups.
//!
//! A scalar is held as 32 bytes, most significant first.

use crate::flag::{both, either, less};
use vstd::prelude::*;

verus! {

/// The number of bytes in a scalar.
pub const SCALAR_LENGTH: usize = 32;

/// The order of the field, most significant byte first:
/// `0x73eda753299d7d483339d80809a1d80553bda402fffe5bfeffffffff00000001`.
pub const FIELD_ORDER: [u8; 32] = [
    0x73, 0xed, 0xa7, 0x53, 0x29, 0x9d, 0x7d, 0x48,
    0x33, 0x39, 0xd8, 0x08, 0x09, 0xa1, 0xd8, 0x05,
    0x53, 0xbd, 0xa4, 0x02, 0xff, 0xfe, 0x5b, 0xfe,
    0xff, 0xff, 0xff, 0xff, 0x00, 0x00, 0x00, 0x01,
];

/// The number that a byte sequence stands for, most significant byte
/// first.
pub open spec fn be_value(bytes: Seq<u8>) -> nat
    decreases bytes.len(),
{
    if bytes.len() == 0 {
        0
    } else {
        be_value(bytes.drop_last()) * 256 + bytes.last() as nat
    }
}

/// The order of the field.
pub open spec fn field_order() -> nat {
    0x73eda753299d7d483339d80809a1d80553bda402fffe5bfeffffffff00000001nat
}

/// Whether a byte sequence is a usable scalar: of the right length, not
/// zero, and below the order of the field.
pub open spec fn is_field_scalar(bytes: Seq<u8>) -> bool {
    &&& bytes.len() == SCALAR_LENGTH
    &&& 0 < be_value(bytes)
    &&& be_value(bytes) < field_order()
}

/// The bytes of `FIELD_ORDER` stand for the order of the field.
pub proof fn lemma_field_order()
    ensures
        be_value(FIELD_ORDER@) == field_order(),
{
    reveal_with_fuel(be_value, 33);
}

/// Appending a byte shifts the number by one byte and adds the new one.
pub proof fn lemma_be_value_push(bytes: Seq<u8>, b: u8)
    ensures
        be_value(bytes.push(b)) == be_value(bytes) * 256 + b,
{
    assert(bytes.push(b).drop_last() =~= bytes);
}

/// Tells whether `bytes` is a usable scalar. Of a sequence of the right
/// length every byte is read and handled alike, whatever the bytes hold:
/// the comparison has no branch on a byte and never returns early.
pub fn in_field(bytes: &[u8]) -> (inside: bool)
    ensures
        inside == is_field_scalar(bytes@),
{
    if bytes.len() != SCALAR_LENGTH {
        return false;
    }
    let mut below: u8 = 0;
    let mut above: u8 = 0;
    let mut any: u8 = 0;
    let mut i: usize = 0;
    while i < SCALAR_LENGTH
        invariant
            i <= SCALAR_LENGTH,
            bytes@.len() == SCALAR_LENGTH,
            below + above <= 1,
            below == 1 <==> be_value(bytes@.take(i as int)) < be_value(FIELD_ORDER@.take(i as int)),
            above == 1 <==> be_value(bytes@.take(i as int)) > be_value(FIELD_ORDER@.take(i as int)),
            any == 0 <==> be_value(bytes@.take(i as int)) == 0,
        decreases SCALAR_LENGTH - i,
    {
        let b: u8 = bytes[i];
        let m: u8 = FIELD_ORDER[i];
        let undecided: u8 = 1 - below - above;
        let lower: u8 = less(b, m);
        let higher: u8 = less(m, b);
        proof {
            assert(bytes@.take(i + 1) =~= bytes@.take(i as int).push(b));
            assert(FIELD_ORDER@.take(i + 1) =~= FIELD_ORDER@.take(i as int).push(m));
            lemma_be_value_push(bytes@.take(i as int), b);
            lemma_be_value_push(FIELD_ORDER@.take(i as int), m);
            assert((any | b) == 0 <==> any == 0 && b == 0) by (bit_vector);
        }
        below = either(below, both(undecided, lower));
        above = either(above, both(undecided, higher));
        any = any | b;
        i += 1;
    }
    assert(bytes@.take(SCALAR_LENGTH as int) =~= bytes@);
    assert(FIELD_ORDER@.take(SCALAR_LENGTH as int) =~= FIELD_ORDER@);
    proof {
        lemma_field_order();
    }
    below == 1 && any != 0
}

} // verus!
