//! What all sets of access flags share.

use vstd::prelude::*;

verus! {

/// Whether every bit of `bits` is a bit of `mask`.
pub open spec fn only_bits(bits: u16, mask: u16) -> bool {
    bits & !mask == 0
}

} // verus!
