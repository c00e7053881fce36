//! The token abstraction the schema parser consumes.
//!
//! The host hands the generator an ordered token sequence; the parser only
//! distinguishes identifier tokens, comma tokens, and everything else, so
//! three kinds suffice.

use vstd::prelude::*;

verus! {

/// One input token of a schema invocation.
pub enum Token {
    /// An identifier token, carrying its text (a field name).
    Ident(String),
    /// A single comma separator.
    Comma,
    /// Any other token kind (a literal, an operator, ...).
    Other,
}

impl Token {
    /// The text of an identifier token.
    pub open spec fn spec_ident_text(self) -> Seq<char>
        recommends
            self is Ident,
    {
        self->Ident_0@
    }
}

} // verus!
