//! The single-word bitfield accessors the bitfield generator emits,
//! modelled as verified functions.
//!
//! The generator (see [`crate::emit::emit_bitfield`]) produces a getter and a
//! setter for a caller-owned single-word wrapper type and a caller-supplied
//! mask. The mask may cover several bits, and the generator does not check
//! that masks of distinct accessor pairs on one type are disjoint — overlap
//! safety is the caller's responsibility. The arithmetic those accessors
//! perform is the pair of functions here, with the bit-level guarantee
//! proved in [`lemma_bitfield_set_bits`].

use crate::record::spec_bit;
use vstd::prelude::*;

verus! {

/// The word the emitted setter stores: all mask bits forced to `value`,
/// all other bits kept.
pub open spec fn spec_bitfield_set(word: u64, mask: u64, value: bool) -> u64 {
    (word & !mask) | (if value {
        mask
    } else {
        0u64
    })
}

/// The emitted getter's test: whether any bit of `mask` is set in `word`.
pub fn bitfield_get(word: u64, mask: u64) -> (r: bool)
    ensures
        r == (word & mask != 0),
{
    (word & mask) != 0
}

/// The emitted setter's arithmetic: clear the mask bits, then set them all
/// if `value` asks for it.
pub fn bitfield_set(word: u64, mask: u64, value: bool) -> (r: u64)
    ensures
        r == spec_bitfield_set(word, mask, value),
{
    (word & !mask) | (if value {
        mask
    } else {
        0u64
    })
}

/// The setter touches exactly the mask: in the stored word, every bit of
/// `mask` equals `value` and every bit outside `mask` keeps its old value.
pub proof fn lemma_bitfield_set_bits(word: u64, mask: u64, value: bool, j: u64)
    requires
        j < 64,
    ensures
        spec_bit(mask, j as nat) ==> spec_bit(spec_bitfield_set(word, mask, value), j as nat)
            == value,
        !spec_bit(mask, j as nat) ==> spec_bit(spec_bitfield_set(word, mask, value), j as nat)
            == spec_bit(word, j as nat),
{
    let r = spec_bitfield_set(word, mask, value);
    assert((mask & (1u64 << j) != 0) ==> ((((word & !mask) | (if value {
        mask
    } else {
        0u64
    })) & (1u64 << j) != 0) == value)) by (bit_vector)
        requires
            j < 64,
    ;
    assert((mask & (1u64 << j) == 0) ==> ((((word & !mask) | (if value {
        mask
    } else {
        0u64
    })) & (1u64 << j) != 0) == (word & (1u64 << j) != 0))) by (bit_vector)
        requires
            j < 64,
    ;
}

/// A bitfield write then read round-trips: after storing with `set`, the
/// getter reports `value` whenever the mask is non-empty.
pub proof fn lemma_bitfield_round_trip(word: u64, mask: u64, value: bool)
    requires
        mask != 0,
    ensures
        (spec_bitfield_set(word, mask, value) & mask != 0) == value,
{
    assert(mask != 0 ==> ((((word & !mask) | (if value {
        mask
    } else {
        0u64
    })) & mask != 0) == value)) by (bit_vector);
}

} // verus!
