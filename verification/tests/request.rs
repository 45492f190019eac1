use bootstrap_macros::diag::{Diagnostic, ErrorKind, Span};
use bootstrap_macros::request::{parse_request, tokenize, GenerationRequest, Token, TokenKind};
use bootstrap_macros::utils::Casing;

fn asked(name: bool, index: bool, display: bool, casing: Casing) -> GenerationRequest {
    GenerationRequest {
        emit_name_accessor: name,
        emit_index_lookup: index,
        emit_display: display,
        casing,
    }
}

fn refused(kind: ErrorKind, start: usize, end: usize) -> Result<GenerationRequest, Diagnostic> {
    Err(Diagnostic { kind, span: Span { start, end } })
}

fn token(kind: TokenKind, start: usize, end: usize) -> Token {
    Token { kind, span: Span { start, end } }
}

#[test]
fn tokenize_splits_request() {
    assert_eq!(
        tokenize("as_str(snake_case), display"),
        vec![
            token(TokenKind::Ident, 0, 6),
            token(TokenKind::OpenParen, 6, 7),
            token(TokenKind::Ident, 7, 17),
            token(TokenKind::CloseParen, 17, 18),
            token(TokenKind::Comma, 18, 19),
            token(TokenKind::Ident, 20, 27),
        ]
    );
}

#[test]
fn tokenize_skips_blanks_and_keeps_other_characters() {
    assert_eq!(tokenize(""), Vec::new());
    assert_eq!(tokenize(" \t\r\n"), Vec::new());
    assert_eq!(
        tokenize(" a1 = 9z"),
        vec![
            token(TokenKind::Ident, 1, 3),
            token(TokenKind::Other, 4, 5),
            token(TokenKind::Other, 6, 7),
            token(TokenKind::Ident, 7, 8),
        ]
    );
}

#[test]
fn tokenize_counts_characters() {
    assert_eq!(
        tokenize("é, x"),
        vec![
            token(TokenKind::Other, 0, 1),
            token(TokenKind::Comma, 1, 2),
            token(TokenKind::Ident, 3, 4),
        ]
    );
}

#[test]
fn single_options() {
    assert_eq!(parse_request("as_str"), Ok(asked(true, false, false, Casing::Unchanged)));
    assert_eq!(parse_request("from_idx"), Ok(asked(false, true, false, Casing::Unchanged)));
    assert_eq!(parse_request("display"), Ok(asked(false, false, true, Casing::Unchanged)));
}

#[test]
fn as_str_with_casing() {
    assert_eq!(
        parse_request("as_str(snake_case)"),
        Ok(asked(true, false, false, Casing::SnakeCase))
    );
    assert_eq!(
        parse_request(" as_str ( snake_case ) "),
        Ok(asked(true, false, false, Casing::SnakeCase))
    );
}

#[test]
fn options_in_any_order() {
    let all = Ok(asked(true, true, true, Casing::SnakeCase));
    assert_eq!(parse_request("as_str(snake_case), display, from_idx"), all);
    assert_eq!(parse_request("from_idx, as_str(snake_case), display"), all);
    assert_eq!(parse_request("display,from_idx,as_str(snake_case)"), all);
}

#[test]
fn repeated_options_set_the_same_flag() {
    assert_eq!(
        parse_request("display, display, from_idx, display"),
        Ok(asked(false, true, true, Casing::Unchanged))
    );
    assert_eq!(
        parse_request("as_str(snake_case), as_str"),
        Ok(asked(true, false, false, Casing::SnakeCase))
    );
}

#[test]
fn unsupported_option_is_refused() {
    assert_eq!(parse_request("foo"), refused(ErrorKind::UnsupportedOption, 0, 3));
    assert_eq!(parse_request("display, foo"), refused(ErrorKind::UnsupportedOption, 9, 12));
    assert_eq!(
        parse_request("display, foo, from_idx"),
        refused(ErrorKind::UnsupportedOption, 9, 12)
    );
    assert_eq!(parse_request("As_Str"), refused(ErrorKind::UnsupportedOption, 0, 6));
    assert_eq!(parse_request("displayed"), refused(ErrorKind::UnsupportedOption, 0, 9));
}

#[test]
fn unknown_casing_is_refused() {
    assert_eq!(parse_request("as_str(camel_case)"), refused(ErrorKind::UnknownCasing, 7, 17));
    assert_eq!(parse_request("as_str(SnakeCase)"), refused(ErrorKind::UnknownCasing, 7, 16));
    assert_eq!(parse_request("as_str()"), refused(ErrorKind::UnknownCasing, 7, 8));
    assert_eq!(parse_request("as_str(5)"), refused(ErrorKind::UnknownCasing, 7, 8));
}

#[test]
fn first_refusal_wins() {
    assert_eq!(
        parse_request("foo, as_str(camel_case)"),
        refused(ErrorKind::UnsupportedOption, 0, 3)
    );
    assert_eq!(
        parse_request("as_str(camel_case), foo"),
        refused(ErrorKind::UnknownCasing, 7, 17)
    );
}

#[test]
fn malformed_requests_are_refused() {
    assert_eq!(parse_request(""), refused(ErrorKind::MalformedRequest, 0, 0));
    assert_eq!(parse_request("   "), refused(ErrorKind::MalformedRequest, 3, 3));
    assert_eq!(parse_request("display,"), refused(ErrorKind::MalformedRequest, 8, 8));
    assert_eq!(parse_request(",display"), refused(ErrorKind::MalformedRequest, 0, 1));
    assert_eq!(parse_request("display from_idx"), refused(ErrorKind::MalformedRequest, 8, 16));
    assert_eq!(parse_request("display(x)"), refused(ErrorKind::MalformedRequest, 7, 8));
    assert_eq!(parse_request("as_str(snake_case"), refused(ErrorKind::MalformedRequest, 17, 17));
    assert_eq!(
        parse_request("as_str(snake_case, snake_case)"),
        refused(ErrorKind::MalformedRequest, 17, 18)
    );
    assert_eq!(parse_request("as_str("), refused(ErrorKind::MalformedRequest, 7, 7));
    assert_eq!(parse_request("5"), refused(ErrorKind::MalformedRequest, 0, 1));
}
