//! The schema parser: separates field-name tokens from the required comma
//! separators, fail-fast on the first malformed token.
//!
//! A well-formed schema is an alternating sequence: identifier tokens at even
//! positions, single commas at odd positions (so a trailing comma is legal
//! and an empty schema parses to zero fields).

use crate::token::Token;
use vstd::prelude::*;

verus! {

/// The diagnostic for a malformed schema: what the parser expected at the
/// first offending token.
#[derive(Clone, Copy, Debug, PartialEq, Eq, Structural)]
pub enum SyntaxError {
    /// An odd-position token was not a comma.
    ExpectedComma,
    /// An even-position token was not an identifier.
    ExpectedIdent,
}

impl SyntaxError {
    /// The diagnostic text reported to the host for this error.
    pub fn message(&self) -> (r: &'static str)
        ensures
            *self is ExpectedComma ==> r@ == "expected comma"@,
            *self is ExpectedIdent ==> r@ == "expected field identifier"@,
    {
        match self {
            SyntaxError::ExpectedComma => "expected comma",
            SyntaxError::ExpectedIdent => "expected field identifier",
        }
    }
}

/// Whether the token at position `i` has the kind its position demands:
/// identifiers at even positions, commas at odd ones.
pub open spec fn token_ok(toks: Seq<Token>, i: int) -> bool
    recommends
        0 <= i < toks.len(),
{
    if i % 2 == 0 {
        toks[i] is Ident
    } else {
        toks[i] is Comma
    }
}

/// A schema is well formed when every position holds the right token kind.
pub open spec fn schema_well_formed(toks: Seq<Token>) -> bool {
    forall|i: int| 0 <= i < toks.len() ==> token_ok(toks, i)
}

/// How many fields an alternating sequence of `len` tokens declares:
/// one per even position.
pub open spec fn spec_field_count(len: nat) -> nat {
    (len + 1) / 2
}

/// The declared field names, in declaration order: the text of the tokens
/// at even positions.
pub open spec fn spec_fields(toks: Seq<Token>) -> Seq<Seq<char>> {
    Seq::new(spec_field_count(toks.len()), |k: int| toks[2 * k].spec_ident_text())
}

/// The error reported for a malformed token at position `i`.
pub open spec fn expected_at(i: int) -> SyntaxError {
    if i % 2 == 0 {
        SyntaxError::ExpectedIdent
    } else {
        SyntaxError::ExpectedComma
    }
}

/// Parse a schema token sequence into its ordered field-name list.
///
/// Succeeds exactly on well-formed schemas and returns the identifier texts
/// at even positions, in order. On a malformed schema it reports the error
/// for the first offending position and returns no partial field list.
pub fn parse_fields(tokens: &Vec<Token>) -> (r: Result<Vec<String>, SyntaxError>)
    ensures
        r is Ok <==> schema_well_formed(tokens@),
        r matches Ok(fields) ==> fields.deep_view() == spec_fields(tokens@),
        r matches Err(e) ==> exists|i: int|
            0 <= i < tokens@.len() && !token_ok(tokens@, i) && e == expected_at(i)
                && (forall|j: int| 0 <= j < i ==> token_ok(tokens@, j)),
{
    let mut fields: Vec<String> = Vec::new();
    let n = tokens.len();
    let mut i: usize = 0;
    while i < n
        invariant
            n == tokens@.len(),
            i <= n,
            forall|j: int| 0 <= j < i ==> token_ok(tokens@, j),
            fields@.len() == spec_field_count(i as nat),
            forall|k: int| 0 <= k < fields@.len() ==> (#[trigger] fields@[k])@ == tokens@[2 * k].spec_ident_text(),
        decreases n - i,
    {
        if i % 2 == 1 {
            match &tokens[i] {
                Token::Comma => {},
                _ => {
                    proof {
                        assert(!token_ok(tokens@, i as int));
                        assert(expected_at(i as int) == SyntaxError::ExpectedComma);
                    }
                    return Err(SyntaxError::ExpectedComma);
                },
            }
        } else {
            match &tokens[i] {
                Token::Ident(name) => {
                    fields.push(name.clone());
                },
                _ => {
                    proof {
                        assert(!token_ok(tokens@, i as int));
                        assert(expected_at(i as int) == SyntaxError::ExpectedIdent);
                    }
                    return Err(SyntaxError::ExpectedIdent);
                },
            }
        }
        i = i + 1;
    }
    proof {
        assert forall|k: int| 0 <= k < fields@.len() implies fields.deep_view()[k]
            == spec_fields(tokens@)[k] by {
            assert(fields@[k]@ == tokens@[2 * k].spec_ident_text());
        }
        assert(fields.deep_view() =~= spec_fields(tokens@));
    }
    Ok(fields)
}

} // verus!
