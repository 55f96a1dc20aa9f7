use vstd::prelude::*;

verus! {

/// `v` with every bit of `mask` set.
pub open spec fn with_bits(v: u32, mask: u32) -> u32 {
    v | mask
}

/// `v` with every bit of `mask` cleared.
pub open spec fn without_bits(v: u32, mask: u32) -> u32 {
    v & !mask
}

/// Some bit of `mask` is set in `v`.
pub open spec fn any_bit(v: u32, mask: u32) -> bool {
    v & mask != 0
}

/// Clearing bits undoes setting them: the other bits of the register come back unchanged.
pub proof fn lemma_clear_undoes_set(v: u32, mask: u32)
    ensures
        without_bits(with_bits(v, mask), mask) == without_bits(v, mask),
{
    assert((v | mask) & !mask == v & !mask) by (bit_vector);
}

/// After setting bits they are all set; after clearing them none is.
pub proof fn lemma_set_clear_effect(v: u32, mask: u32)
    ensures
        with_bits(v, mask) & mask == mask,
        without_bits(v, mask) & mask == 0,
{
    assert((v | mask) & mask == mask) by (bit_vector);
    assert((v & !mask) & mask == 0) by (bit_vector);
}

} // verus!
