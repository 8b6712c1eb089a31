//! Flags: bytes that are zero or one, computed without a branch.
//!
//! Secret bytes are compared and selected through these, so that the
//! instructions run do not depend on what the bytes hold.

use vstd::prelude::*;

verus! {

/// The flag of a condition: one where it holds, zero elsewhere.
pub open spec fn flag(condition: bool) -> u8 {
    if condition {
        1
    } else {
        0
    }
}

/// The flag of `a < b`.
pub fn less(a: u8, b: u8) -> (bit: u8)
    ensures
        bit == flag(a < b),
{
    let spread: u16 = a as u16 + 256 - b as u16;
    assert(spread >> 8 == if spread >= 256 { 1u16 } else { 0u16 }) by (bit_vector)
        requires
            spread < 512,
    ;
    (1 - (spread >> 8)) as u8
}

/// The flag of `low <= b <= high`.
pub fn within(low: u8, b: u8, high: u8) -> (bit: u8)
    ensures
        bit == flag(low <= b && b <= high),
{
    both(1 - less(b, low), 1 - less(high, b))
}

/// The flag that is set where both flags are.
pub fn both(x: u8, y: u8) -> (bit: u8)
    requires
        x <= 1,
        y <= 1,
    ensures
        bit == flag(x == 1 && y == 1),
{
    assert((x & y) == if x == 1 && y == 1 { 1u8 } else { 0u8 }) by (bit_vector)
        requires
            x <= 1,
            y <= 1,
    ;
    x & y
}

/// The flag that is set where either flag is.
pub fn either(x: u8, y: u8) -> (bit: u8)
    requires
        x <= 1,
        y <= 1,
    ensures
        bit == flag(x == 1 || y == 1),
{
    assert((x | y) == if x == 1 || y == 1 { 1u8 } else { 0u8 }) by (bit_vector)
        requires
            x <= 1,
            y <= 1,
    ;
    x | y
}

} // verus!
