//! Facts shared by every flag-word type.

use vstd::prelude::*;

verus! {

/// Bitwise or on flag words is commutative, associative and idempotent.
pub proof fn lemma_or_laws(a: u32, b: u32, c: u32)
    ensures
        a | b == b | a,
        (a | b) | c == a | (b | c),
        a | a == a,
{
    assert(a | b == b | a) by (bit_vector);
    assert((a | b) | c == a | (b | c)) by (bit_vector);
    assert(a | a == a) by (bit_vector);
}

} // verus!
