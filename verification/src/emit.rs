//! The emission stage: source text for the generated definitions.
//!
//! Each generator returns the text the host splices into the calling
//! program. Every emitting function's contract states the produced text
//! exactly, character for character, as a spec-level concatenation.

use crate::layout::{coord, spec_bit_index, spec_word_count, spec_word_index, valid_width, word_count};
use crate::parser::{
    expected_at, parse_fields, schema_well_formed, spec_fields, token_ok, SyntaxError,
};
use crate::token::Token;
use vstd::prelude::*;
use vstd::string::StringExecFns;

verus! {

/// The decimal digit character for `d`.
pub open spec fn spec_digit_char(d: nat) -> char
    recommends
        d < 10,
{
    if d == 0 {
        '0'
    } else if d == 1 {
        '1'
    } else if d == 2 {
        '2'
    } else if d == 3 {
        '3'
    } else if d == 4 {
        '4'
    } else if d == 5 {
        '5'
    } else if d == 6 {
        '6'
    } else if d == 7 {
        '7'
    } else if d == 8 {
        '8'
    } else {
        '9'
    }
}

/// The decimal rendering of `n`, most significant digit first, no leading
/// zeros (except for `n == 0` itself).
pub open spec fn spec_dec(n: nat) -> Seq<char>
    decreases n,
{
    if n < 10 {
        seq![spec_digit_char(n)]
    } else {
        spec_dec(n / 10) + seq![spec_digit_char(n % 10)]
    }
}

/// The one-character string for a single decimal digit.
fn digit_str(d: usize) -> (r: &'static str)
    requires
        d < 10,
    ensures
        r@ == seq![spec_digit_char(d as nat)],
{
    proof {
        reveal_strlit("0");
        reveal_strlit("1");
        reveal_strlit("2");
        reveal_strlit("3");
        reveal_strlit("4");
        reveal_strlit("5");
        reveal_strlit("6");
        reveal_strlit("7");
        reveal_strlit("8");
        reveal_strlit("9");
    }
    match d {
        0 => "0",
        1 => "1",
        2 => "2",
        3 => "3",
        4 => "4",
        5 => "5",
        6 => "6",
        7 => "7",
        8 => "8",
        _ => "9",
    }
}

/// Render `n` in decimal.
pub fn dec_string(n: usize) -> (r: String)
    ensures
        r@ == spec_dec(n as nat),
    decreases n,
{
    if n < 10 {
        String::from_str(digit_str(n))
    } else {
        proof {
            assert(n / 10 < n) by (nonlinear_arith)
                requires
                    n >= 10,
            ;
        }
        let mut s = dec_string(n / 10);
        s.append(digit_str(n % 10));
        s
    }
}

/// The two definitions a struct-generator invocation produces. They are
/// handed back to the host for splicing; the generator keeps no reference
/// to them.
pub struct GeneratedArtifact {
    /// The record type: a fixed-size array of storage words.
    pub type_def: String,
    /// The implementation: the constructor and one accessor pair per field.
    pub impl_def: String,
}

/// The emitted record type: one member, an array of `nb_words` machine
/// words.
pub open spec fn spec_struct_def(name: Seq<char>, nb_words: nat) -> Seq<char> {
    "pub struct "@ + name + " { storage: [usize; "@ + spec_dec(nb_words) + "] }"@
}

/// The emitted getter/setter pair for one field at coordinate
/// `(word, bit)`: the getter tests the field's bit, the setter sets or
/// clears it, each touching only the word that holds it.
pub open spec fn spec_accessors(field: Seq<char>, word: nat, bit: nat) -> Seq<char> {
    " pub fn "@ + field + "(&self) -> bool { (self.storage["@ + spec_dec(word)
        + "] & (1 << "@ + spec_dec(bit) + ")) != 0 }"@ + " pub fn set_"@ + field
        + "(&mut self, new_value: bool) { if new_value { self.storage["@ + spec_dec(word)
        + "] |= 1 << "@ + spec_dec(bit) + " } else { self.storage["@ + spec_dec(word)
        + "] &= !(1 << "@ + spec_dec(bit) + ") } }"@
}

/// The accessor pairs of the first `k` fields, in declaration order.
pub open spec fn spec_accessor_list(fields: Seq<Seq<char>>, w: nat, k: int) -> Seq<char>
    recommends
        w > 0,
        0 <= k <= fields.len(),
    decreases k,
{
    if k <= 0 {
        Seq::empty()
    } else {
        spec_accessor_list(fields, w, k - 1) + spec_accessors(
            fields[k - 1],
            spec_word_index((k - 1) as nat, w),
            spec_bit_index((k - 1) as nat, w),
        )
    }
}

/// The emitted implementation: an all-zero constructor, then the accessor
/// pairs of all fields.
pub open spec fn spec_impl_def(name: Seq<char>, fields: Seq<Seq<char>>, w: nat) -> Seq<char>
    recommends
        w > 0,
{
    "impl "@ + name + " { pub fn new() -> "@ + name + " { "@ + name + " { storage: [0; "@
        + spec_dec(spec_word_count(fields.len(), w)) + "] } }"@
        + spec_accessor_list(fields, w, fields.len() as int) + " }"@
}

/// Emit the record type definition for `nb_words` storage words.
pub fn emit_struct_def(name: &str, nb_words: usize) -> (r: String)
    ensures
        r@ == spec_struct_def(name@, nb_words as nat),
{
    let mut s = String::from_str("pub struct ");
    s.append(name);
    s.append(" { storage: [usize; ");
    let d = dec_string(nb_words);
    s.append(d.as_str());
    s.append("] }");
    s
}

/// Emit the accessor pair for one field at coordinate `(word, bit)`.
fn emit_accessors(field: &str, word: usize, bit: usize) -> (r: String)
    ensures
        r@ == spec_accessors(field@, word as nat, bit as nat),
{
    let word_text = dec_string(word);
    let bit_text = dec_string(bit);
    let mut s = String::from_str(" pub fn ");
    s.append(field);
    s.append("(&self) -> bool { (self.storage[");
    s.append(word_text.as_str());
    s.append("] & (1 << ");
    s.append(bit_text.as_str());
    s.append(")) != 0 }");
    s.append(" pub fn set_");
    s.append(field);
    s.append("(&mut self, new_value: bool) { if new_value { self.storage[");
    s.append(word_text.as_str());
    s.append("] |= 1 << ");
    s.append(bit_text.as_str());
    s.append(" } else { self.storage[");
    s.append(word_text.as_str());
    s.append("] &= !(1 << ");
    s.append(bit_text.as_str());
    s.append(") } }");
    s
}

/// Emit the implementation definition: constructor plus every field's
/// accessor pair, in declaration order.
pub fn emit_impl_def(name: &str, fields: &Vec<String>, width: usize) -> (r: String)
    requires
        valid_width(width as nat),
    ensures
        r@ == spec_impl_def(name@, fields.deep_view(), width as nat),
{
    let nb_words = word_count(fields.len(), width);
    let words_text = dec_string(nb_words);
    let mut s = String::from_str("impl ");
    s.append(name);
    s.append(" { pub fn new() -> ");
    s.append(name);
    s.append(" { ");
    s.append(name);
    s.append(" { storage: [0; ");
    s.append(words_text.as_str());
    s.append("] } }");
    let ghost prefix = s@;
    proof {
        assert(s@ =~= prefix + spec_accessor_list(fields.deep_view(), width as nat, 0));
    }
    let n = fields.len();
    let mut i: usize = 0;
    while i < n
        invariant
            n == fields@.len(),
            i <= n,
            valid_width(width as nat),
            s@ == prefix + spec_accessor_list(fields.deep_view(), width as nat, i as int),
        decreases n - i,
    {
        let (word, bit) = coord(i, width);
        let acc = emit_accessors(fields[i].as_str(), word, bit);
        s.append(acc.as_str());
        proof {
            assert(fields.deep_view()[i as int] == fields@[i as int]@);
            assert(s@ =~= prefix + spec_accessor_list(
                fields.deep_view(),
                width as nat,
                i as int + 1,
            ));
        }
        i = i + 1;
    }
    s.append(" }");
    proof {
        assert(s@ =~= spec_impl_def(name@, fields.deep_view(), width as nat));
    }
    s
}

/// Run the whole struct pipeline: parse the schema, plan the layout, and
/// emit the record type and its implementation.
///
/// Succeeds exactly on well-formed schemas (identifiers at even positions,
/// commas at odd ones) and then returns both definitions, their text pinned
/// down exactly. On a malformed schema it returns the first offending
/// position's diagnostic and no artifact at all.
pub fn generate_bit_struct(name: &str, tokens: &Vec<Token>, width: usize) -> (r: Result<
    GeneratedArtifact,
    SyntaxError,
>)
    requires
        valid_width(width as nat),
    ensures
        r is Ok <==> schema_well_formed(tokens@),
        r matches Ok(a) ==> a.type_def@ == spec_struct_def(
            name@,
            spec_word_count(spec_fields(tokens@).len(), width as nat),
        ),
        r matches Ok(a) ==> a.impl_def@ == spec_impl_def(
            name@,
            spec_fields(tokens@),
            width as nat,
        ),
        r matches Err(e) ==> exists|i: int|
            0 <= i < tokens@.len() && !token_ok(tokens@, i) && e == expected_at(i)
                && (forall|j: int| 0 <= j < i ==> token_ok(tokens@, j)),
{
    let fields = match parse_fields(tokens) {
        Ok(fields) => fields,
        Err(e) => {
            return Err(e);
        },
    };
    let nb_words = word_count(fields.len(), width);
    let type_def = emit_struct_def(name, nb_words);
    let impl_def = emit_impl_def(name, &fields, width);
    Ok(GeneratedArtifact { type_def, impl_def })
}

/// Emit one getter/setter pair for a pre-existing single-word wrapper type
/// and a caller-supplied mask expression. No layout is planned and the mask
/// is not validated: it may cover several bits, and keeping the masks of
/// different accessor pairs on one type disjoint is the caller's
/// responsibility.
pub fn emit_bitfield(wrapper: &str, getter: &str, setter: &str, mask: &str) -> (r: String)
    ensures
        r@ == spec_bitfield_impl(wrapper@, getter@, setter@, mask@),
{
    let mut s = String::from_str("impl ");
    s.append(wrapper);
    s.append(" { pub fn ");
    s.append(getter);
    s.append("(self) -> bool { let ");
    s.append(wrapper);
    s.append("(this) = self; (this & ");
    s.append(mask);
    s.append(") != 0 } pub fn ");
    s.append(setter);
    s.append("(&mut self, value: bool) { let ");
    s.append(wrapper);
    s.append("(this) = *self; *self = ");
    s.append(wrapper);
    s.append("((this & !");
    s.append(mask);
    s.append(") | (if value { ");
    s.append(mask);
    s.append(" } else { 0 })) } }");
    s
}

/// The emitted bitfield accessor pair: the getter unwraps the single stored
/// word and tests the mask, the setter clears the mask bits and sets them
/// all back if asked to.
pub open spec fn spec_bitfield_impl(
    wrapper: Seq<char>,
    getter: Seq<char>,
    setter: Seq<char>,
    mask: Seq<char>,
) -> Seq<char> {
    "impl "@ + wrapper + " { pub fn "@ + getter + "(self) -> bool { let "@ + wrapper
        + "(this) = self; (this & "@ + mask + ") != 0 } pub fn "@ + setter
        + "(&mut self, value: bool) { let "@ + wrapper + "(this) = *self; *self = "@
        + wrapper + "((this & !"@ + mask + ") | (if value { "@ + mask
        + " } else { 0 })) } }"@
}

/// One lazy-global declaration: a name, the value's type, and the
/// initializer expression to run on first access.
pub struct LazyEntry {
    pub name: String,
    pub ty: String,
    pub init: String,
}

/// The emitted definitions for one lazy global: a zero-sized marker type
/// and a dereference operation that forces a one-shot gate with the
/// initializer and returns the cached value.
pub open spec fn spec_lazy_global(name: Seq<char>, ty: Seq<char>, init: Seq<char>) -> Seq<char> {
    "pub struct "@ + name + " { __unit__: () } impl core::ops::Deref for "@ + name
        + " { type Target = "@ + ty + "; fn deref(&self) -> &"@ + ty
        + " { once_gate_of!("@ + name + ", "@ + ty + ").force(|| "@ + init
        + ") } }"@
}

/// The emitted definitions of a whole lazy-global declaration list, in
/// order: the first `k` entries' texts, concatenated.
pub open spec fn spec_lazy_globals(entries: Seq<LazyEntry>, k: int) -> Seq<char>
    recommends
        0 <= k <= entries.len(),
    decreases k,
{
    if k <= 0 {
        Seq::empty()
    } else {
        spec_lazy_globals(entries, k - 1) + spec_lazy_global(
            entries[k - 1].name@,
            entries[k - 1].ty@,
            entries[k - 1].init@,
        )
    }
}

/// Emit one lazy global's marker type and dereference operation.
fn emit_lazy_global(name: &str, ty: &str, init: &str) -> (r: String)
    ensures
        r@ == spec_lazy_global(name@, ty@, init@),
{
    let mut s = String::from_str("pub struct ");
    s.append(name);
    s.append(" { __unit__: () } impl core::ops::Deref for ");
    s.append(name);
    s.append(" { type Target = ");
    s.append(ty);
    s.append("; fn deref(&self) -> &");
    s.append(ty);
    s.append(" { once_gate_of!(");
    s.append(name);
    s.append(", ");
    s.append(ty);
    s.append(").force(|| ");
    s.append(init);
    s.append(") } }");
    s
}

/// Emit the definitions for a list of lazy-global declarations: per entry
/// a marker type whose dereference runs the entry's initializer at most
/// once through a one-shot gate and then always returns the cached value.
/// The entries are emitted in declaration order; they share no state.
pub fn emit_lazy_globals(entries: &Vec<LazyEntry>) -> (r: String)
    ensures
        r@ == spec_lazy_globals(entries@, entries@.len() as int),
{
    let mut s = String::new();
    let n = entries.len();
    let mut i: usize = 0;
    while i < n
        invariant
            n == entries@.len(),
            i <= n,
            s@ == spec_lazy_globals(entries@, i as int),
        decreases n - i,
    {
        let e = &entries[i];
        let text = emit_lazy_global(e.name.as_str(), e.ty.as_str(), e.init.as_str());
        s.append(text.as_str());
        proof {
            assert(s@ =~= spec_lazy_globals(entries@, i as int + 1));
        }
        i = i + 1;
    }
    s
}

} // verus!
