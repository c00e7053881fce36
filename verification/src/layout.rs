//! Storage-layout planning: how many machine words a schema of `n` one-bit
//! fields needs, and at which `(word, bit)` coordinate each field lives.

use vstd::arithmetic::div_mod::{
    lemma_div_plus_one, lemma_fundamental_div_mod, lemma_remainder_lower, lemma_remainder_upper,
};
use vstd::prelude::*;

verus! {

/// The two machine word widths the generator targets.
pub open spec fn valid_width(w: nat) -> bool {
    w == 32 || w == 64
}

/// Number of storage words for `n` one-bit fields at word width `w`:
/// the ceiling of `n / w`. A zero-field schema is given zero storage
/// words by choice, rather than being left to the unsigned underflow that
/// a naive `(n - 1 + w) / w` would produce.
pub open spec fn spec_word_count(n: nat, w: nat) -> nat
    recommends
        w > 0,
{
    if n == 0 {
        0
    } else {
        ((n + w - 1) as nat) / w
    }
}

/// The word that holds bit `i` of the packed storage.
pub open spec fn spec_word_index(i: nat, w: nat) -> nat
    recommends
        w > 0,
{
    i / w
}

/// The bit position of field `i` within its word.
pub open spec fn spec_bit_index(i: nat, w: nat) -> nat
    recommends
        w > 0,
{
    i % w
}

/// Number of storage words for a schema of `n` fields, at word width
/// `width`. Zero fields take zero words.
pub fn word_count(n: usize, width: usize) -> (r: usize)
    requires
        valid_width(width as nat),
    ensures
        r == spec_word_count(n as nat, width as nat),
{
    if n == 0 {
        0
    } else {
        proof {
            lemma_div_shift_by_one((n - 1) as nat, width as nat);
        }
        (n - 1) / width + 1
    }
}

/// The `(word, bit)` coordinate of field `i`.
pub fn coord(i: usize, width: usize) -> (r: (usize, usize))
    requires
        valid_width(width as nat),
    ensures
        r.0 == spec_word_index(i as nat, width as nat),
        r.1 == spec_bit_index(i as nat, width as nat),
{
    (i / width, i % width)
}

/// For a positive divisor, `(m + w) / w == m / w + 1`.
proof fn lemma_div_shift_by_one(m: nat, w: nat)
    requires
        w > 0,
    ensures
        (m + w) / w == m / w + 1,
{
    lemma_div_plus_one(m as int, w as int);
}

/// A field's coordinate determines it: `word * w + bit == i`.
pub proof fn lemma_coord_recombines(i: nat, w: nat)
    requires
        w > 0,
    ensures
        spec_word_index(i, w) * w + spec_bit_index(i, w) == i,
        spec_bit_index(i, w) < w,
{
    lemma_fundamental_div_mod(i as int, w as int);
    lemma_remainder_lower(i as int, w as int);
    lemma_remainder_upper(i as int, w as int);
    assert(spec_word_index(i, w) * w == w * spec_word_index(i, w)) by (nonlinear_arith);
}

/// Every field of a schema lands inside the planned storage:
/// `i < n` implies `coord(i).word < word_count(n)`.
pub proof fn lemma_coord_in_range(i: nat, n: nat, w: nat)
    requires
        w > 0,
        i < n,
    ensures
        spec_word_index(i, w) < spec_word_count(n, w),
{
    lemma_coord_recombines(i, w);
    lemma_word_count_is_ceiling(n, w);
    let q = spec_word_index(i, w);
    let c = spec_word_count(n, w);
    if q >= c {
        assert(q * w >= c * w) by (nonlinear_arith)
            requires
                q >= c,
                w > 0,
        ;
        assert(i >= c * w);
        assert(false);
    }
}

/// `word_count` is the exact ceiling of `n / w`: the planned words cover
/// all `n` fields, and no smaller count does.
pub proof fn lemma_word_count_is_ceiling(n: nat, w: nat)
    requires
        w > 0,
        n > 0,
    ensures
        spec_word_count(n, w) * w >= n,
        (spec_word_count(n, w) - 1) * w < n,
{
    let m = (n - 1) as nat;
    lemma_div_shift_by_one(m, w);
    lemma_fundamental_div_mod(m as int, w as int);
    lemma_remainder_lower(m as int, w as int);
    lemma_remainder_upper(m as int, w as int);
    assert(spec_word_count(n, w) == m / w + 1);
    assert((m / w) * w <= m) by (nonlinear_arith)
        requires
            w > 0,
            m == w * (m / w) + m % w,
            m % w >= 0,
    ;
    assert((m / w + 1) * w >= m + 1) by (nonlinear_arith)
        requires
            w > 0,
            m == w * (m / w) + m % w,
            m % w < w,
    ;
}

} // verus!
