use bootstrap_macros::diag::{Diagnostic, ErrorKind, Span};
use bootstrap_macros::model::{Expr, ExprLit, Lit};
use bootstrap_macros::utils::{eval_usize_lit, eval_usize_simple, extract_string_literal};

fn lit_span() -> Span {
    Span { start: 10, end: 15 }
}

fn str_expr(token: &str) -> Expr {
    Expr::Lit(ExprLit { lit: Lit::Str(token.to_string()), span: lit_span() })
}

fn int_lit(token: &str) -> ExprLit {
    ExprLit { lit: Lit::Int(token.to_string()), span: lit_span() }
}

fn not_a_string() -> Diagnostic {
    Diagnostic { kind: ErrorKind::NotAStringLiteral, span: lit_span() }
}

fn not_an_integer() -> Diagnostic {
    Diagnostic { kind: ErrorKind::NotAnIntegerLiteral, span: lit_span() }
}

#[test]
fn string_literal_gives_its_value() {
    assert_eq!(extract_string_literal(&str_expr("\"hello\"")), Ok("hello".to_string()));
    assert_eq!(extract_string_literal(&str_expr("\"\"")), Ok(String::new()));
}

#[test]
fn string_literal_escapes_are_resolved() {
    assert_eq!(
        extract_string_literal(&str_expr("\"a\\n\\\"b\\\"\\u{e9}\"")),
        Ok("a\n\"b\"é".to_string())
    );
    assert_eq!(extract_string_literal(&str_expr("r#\"raw \"x\"\"#")), Ok("raw \"x\"".to_string()));
}

#[test]
fn integer_is_no_string_literal() {
    let expr = Expr::Lit(int_lit("5"));
    assert_eq!(extract_string_literal(&expr), Err(not_a_string()));
}

#[test]
fn other_literal_is_no_string_literal() {
    let expr = Expr::Lit(ExprLit { lit: Lit::Other("'c'".to_string()), span: lit_span() });
    assert_eq!(extract_string_literal(&expr), Err(not_a_string()));
}

#[test]
fn expression_is_no_string_literal() {
    let expr = Expr::Other { tokens: "concat!(\"a\", \"b\")".to_string(), span: lit_span() };
    assert_eq!(extract_string_literal(&expr), Err(not_a_string()));
    let expr = Expr::Other { tokens: "NAME".to_string(), span: lit_span() };
    assert_eq!(extract_string_literal(&expr), Err(not_a_string()));
}

#[test]
fn malformed_string_token_is_refused() {
    assert_eq!(extract_string_literal(&str_expr("hello")), Err(not_a_string()));
    assert_eq!(extract_string_literal(&str_expr("\"open")), Err(not_a_string()));
    assert_eq!(extract_string_literal(&str_expr("\"a\" \"b\"")), Err(not_a_string()));
    assert_eq!(extract_string_literal(&str_expr("5")), Err(not_a_string()));
}

#[test]
fn integer_literal_gives_its_value() {
    assert_eq!(eval_usize_lit(&int_lit("0")), Ok(0));
    assert_eq!(eval_usize_lit(&int_lit("42")), Ok(42));
    assert_eq!(eval_usize_simple(&Expr::Lit(int_lit("42"))), Ok(42));
}

#[test]
fn integer_literal_radix_separators_and_suffix() {
    assert_eq!(eval_usize_lit(&int_lit("0x10")), Ok(16));
    assert_eq!(eval_usize_lit(&int_lit("0b101")), Ok(5));
    assert_eq!(eval_usize_lit(&int_lit("0o17")), Ok(15));
    assert_eq!(eval_usize_lit(&int_lit("1_000")), Ok(1000));
    assert_eq!(eval_usize_lit(&int_lit("7usize")), Ok(7));
    assert_eq!(eval_usize_lit(&int_lit("7u8")), Ok(7));
}

#[test]
fn integer_literal_must_fit() {
    assert_eq!(eval_usize_lit(&int_lit(&usize::MAX.to_string())), Ok(usize::MAX));
    assert_eq!(
        eval_usize_lit(&int_lit("340282366920938463463374607431768211455999")),
        Err(not_an_integer())
    );
}

#[test]
fn negative_literal_is_no_index() {
    assert_eq!(eval_usize_lit(&int_lit("-1")), Err(not_an_integer()));
}

#[test]
fn string_is_no_integer_literal() {
    let lit = ExprLit { lit: Lit::Str("\"5\"".to_string()), span: lit_span() };
    assert_eq!(eval_usize_lit(&lit), Err(not_an_integer()));
    assert_eq!(eval_usize_simple(&Expr::Lit(lit)), Err(not_an_integer()));
    let lit = ExprLit { lit: Lit::Other("1.5".to_string()), span: lit_span() };
    assert_eq!(eval_usize_lit(&lit), Err(not_an_integer()));
}

#[test]
fn expressions_are_not_evaluated() {
    let expr = Expr::Other { tokens: "1 + 1".to_string(), span: lit_span() };
    assert_eq!(eval_usize_simple(&expr), Err(not_an_integer()));
    let expr = Expr::Other { tokens: "FIRST".to_string(), span: lit_span() };
    assert_eq!(eval_usize_simple(&expr), Err(not_an_integer()));
}

#[test]
fn malformed_integer_token_is_refused() {
    assert_eq!(eval_usize_lit(&int_lit("abc")), Err(not_an_integer()));
    assert_eq!(eval_usize_lit(&int_lit("")), Err(not_an_integer()));
    assert_eq!(eval_usize_lit(&int_lit("1 2")), Err(not_an_integer()));
    assert_eq!(eval_usize_lit(&int_lit("1.5")), Err(not_an_integer()));
}

#[test]
fn expression_accessors() {
    let expr = Expr::Other { tokens: "a + b".to_string(), span: lit_span() };
    assert_eq!(expr.span(), lit_span());
    assert_eq!(expr.tokens(), "a + b");
    let expr = str_expr("\"x\"");
    assert_eq!(expr.span(), lit_span());
    assert_eq!(expr.tokens(), "\"x\"");
}

#[test]
fn diagnostics_carry_a_message() {
    assert_eq!(ErrorKind::UnsupportedOption.message(), "Unsupported utility");
    assert_eq!(ErrorKind::UnknownCasing.message(), "Unknown case");
    assert_eq!(ErrorKind::NotAStringLiteral.message(), "Expected string literal");
    assert_eq!(ErrorKind::NotAnIntegerLiteral.message(), "Can only resolve integer literals");
    assert_eq!(ErrorKind::NotAnEnum.message(), "enum utilities are only supported on enums");
    assert_eq!(
        ErrorKind::MissingFormatValue.message(),
        "Expected arguments in parentheses for `fmt`"
    );
    assert_eq!(ErrorKind::MalformedRequest.message(), "Malformed utility request");
    let d = Diagnostic::new(ErrorKind::UnknownCasing, lit_span());
    assert_eq!(d.message(), "Unknown case");
    assert_eq!(d, Diagnostic { kind: ErrorKind::UnknownCasing, span: lit_span() });
}

#[test]
fn odd_tokens_are_refused() {
    let odd = [
        "\"", "r#\"", "b\"x\"", "'a'", "\"\\q\"", "\"\\u{110000}\"", "0x", "1e5", "((((", "-",
        "--1", "\u{feff}", " \"a\"", "\"a\" ", "\"a\"\n", "r", "br", "c\"x\"", "\"\\", "1_", "_1",
        "0b102", "é", "\"é", "\0",
    ];
    for token in odd {
        assert_eq!(extract_string_literal(&str_expr(token)), Err(not_a_string()), "{token:?}");
    }
    let odd = [
        "\"", "\"1\"", "'1'", "0x", "1e5", "1.0", "((((", "-", "--1", "\u{feff}", " 1", "1 ", "_1",
        "0b102", "é", "\0", "+1", "1+", "0o8", "true",
    ];
    for token in odd {
        assert_eq!(eval_usize_lit(&int_lit(token)), Err(not_an_integer()), "{token:?}");
    }
}
