//! The packed record the generator emits, modelled as a verified type.
//!
//! The emitted struct holds `word_count(n)` machine words and accesses field
//! `i` through the mask `1 << (i % w)` of word `i / w`. [`BitRecord`] carries
//! out exactly that arithmetic, so the accessors' guarantees — zero
//! initialization, per-field round trip, isolation between fields — are
//! proved here once for every schema size and both word widths.

use crate::layout::{
    lemma_coord_in_range, lemma_coord_recombines, spec_bit_index, spec_word_count,
    spec_word_index, valid_width, word_count,
};
use vstd::prelude::*;

verus! {

/// Whether bit `b` of `word` is set.
pub open spec fn spec_bit(word: u64, b: nat) -> bool
    recommends
        b < 64,
{
    word & (1u64 << (b as u64)) != 0
}

/// A record of `field_count` boolean fields packed one bit each into words
/// of `width` bits (stored in `u64` cells; at width 32 the upper half of
/// every cell stays zero).
pub struct BitRecord {
    width: usize,
    field_count: usize,
    storage: Vec<u64>,
}

impl View for BitRecord {
    type V = Seq<bool>;

    /// A record is viewed as the sequence of its field values.
    closed spec fn view(&self) -> Seq<bool> {
        Seq::new(
            self.field_count as nat,
            |i: int| spec_bit(
                self.storage@[spec_word_index(i as nat, self.width as nat) as int],
                spec_bit_index(i as nat, self.width as nat),
            ),
        )
    }
}

impl BitRecord {
    /// The record's storage is exactly the planned layout: a valid word
    /// width, `ceil(field_count / width)` words, and no stray bits above
    /// a 32-bit word's width.
    pub closed spec fn wf(&self) -> bool {
        &&& valid_width(self.width as nat)
        &&& self.storage@.len() == spec_word_count(self.field_count as nat, self.width as nat)
        &&& self.width == 32 ==> forall|j: int|
            0 <= j < self.storage@.len() ==> #[trigger] self.storage@[j] <= 0xFFFF_FFFFu64
    }

    /// The number of fields the record was built for.
    pub closed spec fn spec_field_count(&self) -> nat {
        self.field_count as nat
    }

    /// The word width the record was built for.
    pub closed spec fn spec_width(&self) -> nat {
        self.width as nat
    }

    /// The number of storage words the record holds.
    pub closed spec fn spec_storage_words(&self) -> nat {
        self.storage@.len()
    }

    /// Construct a record of `field_count` fields at word width `width`,
    /// every field `false`. A zero-field record holds zero storage words.
    pub fn new(field_count: usize, width: usize) -> (r: BitRecord)
        requires
            valid_width(width as nat),
        ensures
            r.wf(),
            r.spec_field_count() == field_count,
            r.spec_width() == width,
            r.spec_storage_words() == spec_word_count(field_count as nat, width as nat),
            r@.len() == field_count,
            forall|i: int| 0 <= i < field_count ==> !r@[i],
    {
        let words = word_count(field_count, width);
        let mut storage: Vec<u64> = Vec::new();
        let mut j: usize = 0;
        while j < words
            invariant
                j <= words,
                storage@.len() == j,
                forall|k: int| 0 <= k < j ==> storage@[k] == 0u64,
            decreases words - j,
        {
            storage.push(0u64);
            j = j + 1;
        }
        let r = BitRecord { width, field_count, storage };
        proof {
            assert(forall|j: int| 0 <= j < r.storage@.len() ==> r.storage@[j] == 0u64);
            assert forall|i: int| 0 <= i < field_count implies !r@[i] by {
                lemma_coord_in_range(i as nat, field_count as nat, width as nat);
                lemma_coord_recombines(i as nat, width as nat);
                let b = spec_bit_index(i as nat, width as nat);
                assert(b < 64);
                assert(0u64 & (1u64 << (b as u64)) == 0) by (bit_vector);
            }
        }
        r
    }

    /// Read field `i`: test the one bit at its layout coordinate.
    pub fn get(&self, i: usize) -> (r: bool)
        requires
            self.wf(),
            i < self.spec_field_count(),
        ensures
            r == self@[i as int],
    {
        proof {
            lemma_coord_in_range(i as nat, self.field_count as nat, self.width as nat);
            lemma_coord_recombines(i as nat, self.width as nat);
        }
        let word = i / self.width;
        let bit = i % self.width;
        (self.storage[word] & (1u64 << (bit as u64))) != 0
    }

    /// Write field `i`: set or clear the one bit at its layout coordinate,
    /// touching only the word that holds it. Every other field keeps its
    /// value, so a write is exactly a point update of the record's view.
    pub fn set(&mut self, i: usize, new_value: bool)
        requires
            old(self).wf(),
            i < old(self).spec_field_count(),
        ensures
            final(self).wf(),
            final(self).spec_field_count() == old(self).spec_field_count(),
            final(self).spec_width() == old(self).spec_width(),
            final(self)@ == old(self)@.update(i as int, new_value),
    {
        proof {
            lemma_coord_in_range(i as nat, self.field_count as nat, self.width as nat);
            lemma_coord_recombines(i as nat, self.width as nat);
        }
        let word = i / self.width;
        let bit = i % self.width;
        let old_word = self.storage[word];
        let new_word = if new_value {
            old_word | (1u64 << (bit as u64))
        } else {
            old_word & !(1u64 << (bit as u64))
        };
        proof {
            if self.width == 32 {
                let b = bit as u64;
                assert(old_word <= 0xFFFF_FFFFu64 && b < 32 ==> (old_word | (1u64 << b))
                    <= 0xFFFF_FFFFu64 && (old_word & !(1u64 << b)) <= 0xFFFF_FFFFu64)
                    by (bit_vector);
            }
        }
        self.storage[word] = new_word;
        proof {
            lemma_write_is_point_update(*old(self), *self, i as nat, new_value);
        }
    }
}

/// Changing one bit of one word changes exactly one field: if `after`
/// differs from `before` only in that word `i / w` had bit `i % w` set or
/// cleared, then `after`'s view is `before`'s with field `i` updated.
proof fn lemma_write_is_point_update(before: BitRecord, after: BitRecord, i: nat, v: bool)
    requires
        before.wf(),
        i < before.spec_field_count(),
        after.spec_field_count() == before.spec_field_count(),
        after.spec_width() == before.spec_width(),
        after.storage@ == before.storage@.update(
            spec_word_index(i, before.spec_width()) as int,
            if v {
                before.storage@[spec_word_index(i, before.spec_width()) as int]
                    | (1u64 << (spec_bit_index(i, before.spec_width()) as u64))
            } else {
                before.storage@[spec_word_index(i, before.spec_width()) as int]
                    & !(1u64 << (spec_bit_index(i, before.spec_width()) as u64))
            },
        ),
    ensures
        after@ == before@.update(i as int, v),
{
    let w = before.spec_width();
    let wi = spec_word_index(i, w);
    let bi = spec_bit_index(i, w);
    lemma_coord_in_range(i, before.spec_field_count(), w);
    lemma_coord_recombines(i, w);
    assert forall|k: int| 0 <= k < after@.len() implies after@[k] == before@.update(i as int, v)[k] by {
        let kw = spec_word_index(k as nat, w);
        let kb = spec_bit_index(k as nat, w);
        lemma_coord_in_range(k as nat, before.spec_field_count(), w);
        lemma_coord_recombines(k as nat, w);
        if kw == wi {
            let old_word = before.storage@[wi as int];
            let new_word = after.storage@[wi as int];
            if k == i {
                if v {
                    lemma_or_sets_bit(old_word, bi as u64);
                } else {
                    lemma_and_not_clears_bit(old_word, bi as u64);
                }
            } else {
                assert(kb != bi);
                if v {
                    lemma_or_keeps_other_bits(old_word, bi as u64, kb as u64);
                } else {
                    lemma_and_not_keeps_other_bits(old_word, bi as u64, kb as u64);
                }
            }
        }
    }
    assert(after@ =~= before@.update(i as int, v));
}

/// Setting a bit with `|` makes that bit one.
proof fn lemma_or_sets_bit(word: u64, b: u64)
    by (bit_vector)
    requires
        b < 64,
    ensures
        (word | (1u64 << b)) & (1u64 << b) != 0,
{
}

/// Clearing a bit with `& !` makes that bit zero.
proof fn lemma_and_not_clears_bit(word: u64, b: u64)
    by (bit_vector)
    requires
        b < 64,
    ensures
        (word & !(1u64 << b)) & (1u64 << b) == 0,
{
}

/// Setting bit `b` leaves every other bit `c` as it was.
proof fn lemma_or_keeps_other_bits(word: u64, b: u64, c: u64)
    by (bit_vector)
    requires
        b < 64,
        c < 64,
        b != c,
    ensures
        ((word | (1u64 << b)) & (1u64 << c) != 0) == (word & (1u64 << c) != 0),
{
}

/// Clearing bit `b` leaves every other bit `c` as it was.
proof fn lemma_and_not_keeps_other_bits(word: u64, b: u64, c: u64)
    by (bit_vector)
    requires
        b < 64,
        c < 64,
        b != c,
    ensures
        (((word & !(1u64 << b)) & (1u64 << c)) != 0) == (word & (1u64 << c) != 0),
{
}

/// Round trip and isolation, at the level of a record's view: updating
/// field `i` makes a read of `i` return the written value, leaves every
/// other field's value untouched, and keeps the field count.
pub proof fn lemma_set_round_trip(fields: Seq<bool>, i: int, v: bool)
    requires
        0 <= i < fields.len(),
    ensures
        fields.update(i, v)[i] == v,
        forall|j: int| 0 <= j < fields.len() && j != i ==> fields.update(i, v)[j] == fields[j],
        fields.update(i, v).len() == fields.len(),
{
}

} // verus!
