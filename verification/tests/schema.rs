use bitgen::emit::generate_bit_struct;
use bitgen::parser::{parse_fields, SyntaxError};
use bitgen::token::Token;

fn ident(s: &str) -> Token {
    Token::Ident(s.to_string())
}

#[test]
fn parses_comma_separated_idents() {
    let tokens = vec![ident("alpha"), Token::Comma, ident("beta"), Token::Comma, ident("gamma")];
    let fields = parse_fields(&tokens).unwrap();
    assert_eq!(fields, vec!["alpha".to_string(), "beta".to_string(), "gamma".to_string()]);
}

#[test]
fn accepts_trailing_comma() {
    let tokens = vec![ident("alpha"), Token::Comma];
    let fields = parse_fields(&tokens).unwrap();
    assert_eq!(fields, vec!["alpha".to_string()]);
}

#[test]
fn accepts_empty_schema() {
    let tokens: Vec<Token> = Vec::new();
    let fields = parse_fields(&tokens).unwrap();
    assert!(fields.is_empty());
}

#[test]
fn rejects_missing_comma() {
    // `ident, ident ident`: the token at position 3 should be a comma.
    let tokens = vec![ident("alpha"), Token::Comma, ident("beta"), ident("gamma")];
    assert_eq!(parse_fields(&tokens), Err(SyntaxError::ExpectedComma));
}

#[test]
fn rejects_non_identifier_field() {
    // `ident, 123`: the token at position 2 should be an identifier.
    let tokens = vec![ident("alpha"), Token::Comma, Token::Other];
    assert_eq!(parse_fields(&tokens), Err(SyntaxError::ExpectedIdent));
}

#[test]
fn reports_first_error_only() {
    // Both positions 1 and 2 are malformed; position 1 is diagnosed.
    let tokens = vec![ident("alpha"), Token::Other, Token::Comma];
    assert_eq!(parse_fields(&tokens), Err(SyntaxError::ExpectedComma));
}

#[test]
fn error_messages_name_the_expected_token() {
    assert_eq!(SyntaxError::ExpectedComma.message(), "expected comma");
    assert_eq!(SyntaxError::ExpectedIdent.message(), "expected field identifier");
}

#[test]
fn generation_aborts_on_malformed_schema() {
    let tokens = vec![ident("alpha"), Token::Comma, ident("beta"), ident("gamma")];
    let r = generate_bit_struct("Flags", &tokens, 64);
    assert!(matches!(r, Err(SyntaxError::ExpectedComma)));
}
