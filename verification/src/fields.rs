//! What it means for a 32-bit mask to describe a register bit field.
//!
//! Every named constant of the flag sets in [`crate::flags`] is a mask that
//! covers one contiguous run of bits inside a 32-bit register word. The spec
//! functions here pin that shape down: a field of `width` bits starting at
//! bit `shift` is the mask `(2^width - 1) * 2^shift`. The layout lemmas in
//! [`crate::flags`] prove every named mask against this definition, which at
//! once gives that each mask is non-zero, that single-bit masks are powers of
//! two, and that multi-bit masks occupy contiguous ranges.

use vstd::arithmetic::power2::{lemma2_to64, lemma_pow2_pos, lemma_pow2_strictly_increases, pow2};
use vstd::prelude::*;

verus! {

/// `m` is exactly the mask of the `width`-bit field whose lowest bit is bit
/// `shift` of a 32-bit word: the bits `shift .. shift + width`, contiguous.
pub open spec fn field_mask(m: u32, shift: nat, width: nat) -> bool {
    &&& 1 <= width
    &&& shift + width <= 32
    &&& m == (pow2(width) - 1) * pow2(shift)
}

/// `m` is the mask of the single bit `shift` of a 32-bit word.
pub open spec fn single_bit(m: u32, shift: nat) -> bool {
    field_mask(m, shift, 1)
}

/// A field mask is never zero: a named field always covers at least one bit.
pub proof fn lemma_field_mask_nonzero(m: u32, shift: nat, width: nat)
    requires
        field_mask(m, shift, width),
    ensures
        m != 0,
{
    lemma2_to64();
    lemma_pow2_pos(shift);
    lemma_pow2_strictly_increases(0, width);
    assert((pow2(width) - 1) * pow2(shift) >= 1) by (nonlinear_arith)
        requires
            pow2(width) >= 2,
            pow2(shift) >= 1,
    ;
}

/// A single-bit mask is a power of two: exactly `2^shift`.
pub proof fn lemma_single_bit_pow2(m: u32, shift: nat)
    requires
        single_bit(m, shift),
    ensures
        m == pow2(shift),
{
    lemma2_to64();
}

} // verus!
