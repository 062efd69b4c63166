//! Bits of a register byte, stated by their weight.

use vstd::prelude::*;

verus! {

/// What a flag contributes to a byte at the bit of the given weight.
pub open spec fn weighted(flag: bool, weight: int) -> int {
    if flag {
        weight
    } else {
        0
    }
}

/// Whether `raw` has the bit of the given weight set. The weight is a power
/// of two: 1 for bit 0, 128 for bit 7.
pub open spec fn bit_set(raw: u8, weight: int) -> bool {
    (raw as int / weight) % 2 == 1
}

} // verus!
