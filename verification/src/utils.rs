//! Identifier casing and the evaluation of literal expressions.

use vstd::prelude::*;
use vstd::string::*;
use crate::diag::{Diagnostic, ErrorKind};
use crate::model::{Expr, ExprLit, Lit};

verus! {

/// The naming convention applied to an identifier when a name is derived
/// from it.
#[derive(Clone, Copy, Debug, PartialEq, Eq, Structural)]
pub enum Casing {
    /// The identifier is taken as written.
    Unchanged,
    /// Lower-case words joined by underscores.
    SnakeCase,
}

/// Whether the Unicode tables list `c` as an uppercase character.
pub uninterp spec fn char_is_uppercase(c: char) -> bool;

/// The characters that `c` lower-cases to, in order.
pub uninterp spec fn char_lowercase(c: char) -> Seq<char>;

/// Calls `char::is_uppercase`. The contract only names the answer: it is a
/// function of the character alone.
#[verifier::external_body]
fn is_uppercase(c: char) -> (b: bool)
    ensures
        b == char_is_uppercase(c),
{
    c.is_uppercase()
}

/// Calls `char::to_lowercase` and collects the characters it yields. The
/// contract only names them: they are a function of the character alone.
#[verifier::external_body]
fn to_lowercase(c: char) -> (lower: String)
    ensures
        lower@ == char_lowercase(c),
{
    c.to_lowercase().to_string()
}

/// Calls `String::push`: the character is appended and nothing else changes.
#[verifier::external_body]
pub(crate) fn push_char(text: &mut String, c: char)
    ensures
        final(text)@ == old(text)@.push(c),
{
    text.push(c)
}

/// What one character of an identifier contributes to its snake-case form,
/// given what the case tables say of it: an uppercase character becomes its
/// lower-case form, preceded by a separator unless it opens the identifier;
/// any other character stays.
pub open spec fn piece_of(c: char, upper: bool, lower: Seq<char>, first: bool) -> Seq<char> {
    if upper {
        if first {
            lower
        } else {
            seq!['_'] + lower
        }
    } else {
        seq![c]
    }
}

/// What one character of an identifier contributes to its snake-case form.
pub open spec fn snake_piece(c: char, first: bool) -> Seq<char> {
    piece_of(c, char_is_uppercase(c), char_lowercase(c), first)
}

/// Builds what one character contributes to the snake-case form, from what
/// the case tables say of it.
pub fn snake_piece_text(c: char, upper: bool, lower: &str, first: bool) -> (piece: String)
    ensures
        piece@ == piece_of(c, upper, lower@, first),
{
    let mut piece = String::new();
    if upper {
        if !first {
            push_char(&mut piece, '_');
        }
        piece.append(lower);
        proof {
            if first {
                assert(piece@ == Seq::<char>::empty() + lower@);
            }
        }
    } else {
        push_char(&mut piece, c);
    }
    piece
}

/// The snake-case form of an identifier: the pieces of its characters, in
/// order.
pub open spec fn snake_case(text: Seq<char>) -> Seq<char>
    decreases text.len(),
{
    if text.len() == 0 {
        Seq::empty()
    } else {
        snake_case(text.drop_last()) + snake_piece(text.last(), text.len() == 1)
    }
}

/// The form of `text` under `case`.
pub open spec fn cased(text: Seq<char>, case: Casing) -> Seq<char> {
    match case {
        Casing::Unchanged => text,
        Casing::SnakeCase => snake_case(text),
    }
}

/// Converts an identifier to the requested casing.
pub fn to_case(orig: String, case: Casing) -> (name: String)
    ensures
        name@ == cased(orig@, case),
{
    match case {
        Casing::Unchanged => orig,
        Casing::SnakeCase => {
            let text = orig.as_str();
            let len = text.unicode_len();
            let mut name = String::new();
            let mut idx: usize = 0;
            while idx < len
                invariant
                    idx <= len,
                    len == text@.len(),
                    text@ == orig@,
                    name@ == snake_case(text@.take(idx as int)),
                decreases len - idx,
            {
                let ch = text.get_char(idx);
                proof {
                    let next = text@.take(idx + 1);
                    assert(next.drop_last() == text@.take(idx as int));
                    assert(next.last() == ch);
                }
                let piece = if is_uppercase(ch) {
                    snake_piece_text(ch, true, to_lowercase(ch).as_str(), idx == 0)
                } else {
                    snake_piece_text(ch, false, "", idx == 0)
                };
                name.append(piece.as_str());
                idx += 1;
            }
            assert(text@.take(len as int) == text@);
            name
        },
    }
}

/// Whether two texts hold the same characters.
pub fn str_equal(a: &str, b: &str) -> (same: bool)
    ensures
        same == (a@ == b@),
{
    let len = a.unicode_len();
    if len != b.unicode_len() {
        return false;
    }
    let mut idx: usize = 0;
    while idx < len
        invariant
            idx <= len,
            len == a@.len(),
            len == b@.len(),
            a@.take(idx as int) == b@.take(idx as int),
        decreases len - idx,
    {
        if a.get_char(idx) != b.get_char(idx) {
            return false;
        }
        assert(a@.take(idx + 1) == a@.take(idx as int).push(a@[idx as int]));
        assert(b@.take(idx + 1) == b@.take(idx as int).push(b@[idx as int]));
        idx += 1;
    }
    assert(a@.take(len as int) == a@);
    assert(b@.take(len as int) == b@);
    true
}

/// The value that a string literal token denotes, escapes resolved; `None`
/// when the text is not exactly one string literal.
pub uninterp spec fn str_literal_value(token: Seq<char>) -> Option<Seq<char>>;

/// The decimal digits of an integer literal token, whatever radix it was
/// written in and with separators and suffix removed; `None` when the text
/// is not exactly one integer literal.
pub uninterp spec fn int_literal_digits(token: Seq<char>) -> Option<Seq<char>>;

/// Reads the text as one literal token with `proc_macro2::Literal::from_str`,
/// has `syn::Lit::new` tell what kind of literal it is, and calls
/// `syn::LitStr::value` on a string literal. The contract only names the
/// outcome: it is a function of the text alone.
#[verifier::external_body]
fn parse_str_literal(token: &str) -> (value: Option<String>)
    ensures
        match value {
            Some(v) => str_literal_value(token@) == Some(v@),
            None => str_literal_value(token@) is None,
        },
{
    match token.parse::<proc_macro2::Literal>() {
        Ok(literal) => match syn::Lit::new(literal) {
            syn::Lit::Str(lit) => Some(lit.value()),
            _ => None,
        },
        Err(_) => None,
    }
}

/// Reads the text as one literal token with `proc_macro2::Literal::from_str`,
/// has `syn::Lit::new` tell what kind of literal it is, and calls
/// `syn::LitInt::base10_digits` on an integer literal. The contract only
/// names the outcome: it is a function of the text alone.
#[verifier::external_body]
fn parse_int_literal(token: &str) -> (digits: Option<String>)
    ensures
        match digits {
            Some(d) => int_literal_digits(token@) == Some(d@),
            None => int_literal_digits(token@) is None,
        },
{
    match token.parse::<proc_macro2::Literal>() {
        Ok(literal) => match syn::Lit::new(literal) {
            syn::Lit::Int(lit) => Some(lit.base10_digits().to_string()),
            _ => None,
        },
        Err(_) => None,
    }
}

pub open spec fn is_digit(c: char) -> bool {
    '0' <= c <= '9'
}

pub open spec fn all_digits(text: Seq<char>) -> bool {
    forall|i: int| 0 <= i < text.len() ==> is_digit(#[trigger] text[i])
}

/// The number that a run of decimal digits denotes.
pub open spec fn decimal_number(digits: Seq<char>) -> nat
    decreases digits.len(),
{
    if digits.len() == 0 {
        0
    } else {
        (decimal_number(digits.drop_last()) * 10 + (digits.last() as nat - '0' as nat)) as nat
    }
}

/// The index that a run of characters denotes: it must be a non-empty run
/// of decimal digits whose number fits the index type.
pub open spec fn decimal_index(text: Seq<char>) -> Option<usize> {
    if text.len() > 0 && all_digits(text) && decimal_number(text) <= usize::MAX {
        Some(decimal_number(text) as usize)
    } else {
        None
    }
}

/// A run of digits denotes at least what any of its prefixes denotes.
pub proof fn lemma_decimal_number_grows(digits: Seq<char>, n: int)
    requires
        all_digits(digits),
        0 <= n <= digits.len(),
    ensures
        decimal_number(digits.take(n)) <= decimal_number(digits),
    decreases digits.len() - n,
{
    if n == digits.len() {
        assert(digits.take(n) == digits);
    } else {
        let next = digits.take(n + 1);
        assert(next.drop_last() == digits.take(n));
        assert(is_digit(digits[n]));
        assert(next.last() == digits[n]);
        lemma_decimal_number_grows(digits, n + 1);
    }
}

/// Reads a run of decimal digits as an index.
pub fn parse_decimal(text: &str) -> (value: Option<usize>)
    ensures
        value == decimal_index(text@),
{
    let len = text.unicode_len();
    if len == 0 {
        return None;
    }
    let mut acc: usize = 0;
    let mut idx: usize = 0;
    while idx < len
        invariant
            idx <= len,
            len == text@.len(),
            all_digits(text@.take(idx as int)),
            acc == decimal_number(text@.take(idx as int)),
        decreases len - idx,
    {
        let ch = text.get_char(idx);
        let ghost next = text@.take(idx + 1);
        proof {
            assert(next.drop_last() == text@.take(idx as int));
            assert(next.last() == ch);
        }
        if !(ch >= '0' && ch <= '9') {
            assert(!is_digit(text@[idx as int]));
            return None;
        }
        let digit: usize = (ch as u32 - '0' as u32) as usize;
        assert(all_digits(next)) by {
            assert forall|i: int| 0 <= i < next.len() implies is_digit(#[trigger] next[i]) by {
                if i < idx {
                    assert(next[i] == text@.take(idx as int)[i]);
                }
            }
        }
        if acc > (usize::MAX - digit) / 10 {
            proof {
                assert(decimal_number(next) > usize::MAX);
                if all_digits(text@) {
                    lemma_decimal_number_grows(text@, idx + 1);
                }
            }
            return None;
        }
        acc = acc * 10 + digit;
        idx += 1;
    }
    assert(text@.take(len as int) == text@);
    Some(acc)
}

/// The text of the string literal token that denotes `value`: the value
/// between double quotes, with the characters that cannot stand there as
/// they are written as escapes.
pub uninterp spec fn literal_text(value: Seq<char>) -> Seq<char>;

/// Calls `proc_macro2::Literal::string` and prints the token. The contract
/// only names the text: it is a function of the value alone.
#[verifier::external_body]
pub(crate) fn render_string_literal(value: &str) -> (text: String)
    ensures
        text@ == literal_text(value@),
{
    proc_macro2::Literal::string(value).to_string()
}

/// The views of a list of texts.
pub open spec fn texts(list: Seq<String>) -> Seq<Seq<char>> {
    Seq::new(list.len(), |i: int| list[i]@)
}

/// Appending a text to a list appends its view to the views.
pub proof fn lemma_texts_push(list: Seq<String>, text: String)
    ensures
        texts(list.push(text)) == texts(list).push(text@),
{
    assert(texts(list.push(text)) =~= texts(list).push(text@));
}

/// The view of a text that may be absent.
pub open spec fn opt_text(text: Option<String>) -> Option<Seq<char>> {
    match text {
        Some(t) => Some(t@),
        None => None,
    }
}

/// The parts in order, with `sep` between neighbours.
pub open spec fn join(parts: Seq<Seq<char>>, sep: Seq<char>) -> Seq<char>
    decreases parts.len(),
{
    if parts.len() == 0 {
        Seq::empty()
    } else if parts.len() == 1 {
        parts[0]
    } else {
        join(parts.drop_last(), sep) + sep + parts.last()
    }
}

/// Joins texts with a separator between neighbours.
pub fn join_texts(parts: &Vec<String>, sep: &str) -> (out: String)
    ensures
        out@ == join(texts(parts@), sep@),
{
    let mut out = String::new();
    let mut idx: usize = 0;
    while idx < parts.len()
        invariant
            idx <= parts.len(),
            out@ == join(texts(parts@).take(idx as int), sep@),
        decreases parts.len() - idx,
    {
        let ghost before = texts(parts@).take(idx as int);
        let ghost after = texts(parts@).take(idx + 1);
        proof {
            assert(after.drop_last() == before);
            assert(after.last() == parts@[idx as int]@);
        }
        if idx > 0 {
            out.append(sep);
        }
        out.append(parts[idx].as_str());
        proof {
            if idx == 0 {
                assert(before.len() == 0);
                assert(out@ == Seq::<char>::empty() + parts@[0]@);
                assert(out@ == after[0]);
            }
        }
        idx += 1;
    }
    assert(texts(parts@).take(parts.len() as int) == texts(parts@));
    out
}

/// The character of a decimal digit.
pub open spec fn digit_char(d: nat) -> char {
    if d == 0 {
        '0'
    } else if d == 1 {
        '1'
    } else if d == 2 {
        '2'
    } else if d == 3 {
        '3'
    } else if d == 4 {
        '4'
    } else if d == 5 {
        '5'
    } else if d == 6 {
        '6'
    } else if d == 7 {
        '7'
    } else if d == 8 {
        '8'
    } else {
        '9'
    }
}

/// The decimal digits of a number, most significant first, without leading
/// zeros.
pub open spec fn decimal_text(n: nat) -> Seq<char>
    decreases n,
{
    if n < 10 {
        seq![digit_char(n)]
    } else {
        decimal_text(n / 10).push(digit_char(n % 10))
    }
}

fn digit_of(d: usize) -> (c: char)
    requires
        d < 10,
    ensures
        c == digit_char(d as nat),
{
    if d == 0 {
        '0'
    } else if d == 1 {
        '1'
    } else if d == 2 {
        '2'
    } else if d == 3 {
        '3'
    } else if d == 4 {
        '4'
    } else if d == 5 {
        '5'
    } else if d == 6 {
        '6'
    } else if d == 7 {
        '7'
    } else if d == 8 {
        '8'
    } else {
        '9'
    }
}

/// Writes a number in decimal.
pub fn decimal_string(n: usize) -> (text: String)
    ensures
        text@ == decimal_text(n as nat),
    decreases n,
{
    if n < 10 {
        let mut text = String::new();
        push_char(&mut text, digit_of(n));
        assert(text@ == seq![digit_char(n as nat)]);
        text
    } else {
        let mut text = decimal_string(n / 10);
        push_char(&mut text, digit_of(n % 10));
        text
    }
}

/// Reading back what was written gives the number again.
pub proof fn lemma_decimal_round_trip(n: nat)
    ensures
        decimal_text(n).len() > 0,
        all_digits(decimal_text(n)),
        decimal_number(decimal_text(n)) == n,
    decreases n,
{
    if n < 10 {
        let t = decimal_text(n);
        assert(t.drop_last() == Seq::<char>::empty());
        assert(decimal_number(t.drop_last()) == 0);
    } else {
        lemma_decimal_round_trip(n / 10);
        let t = decimal_text(n);
        assert(t.drop_last() == decimal_text(n / 10));
        assert(t.last() == digit_char(n % 10));
        assert forall|i: int| 0 <= i < t.len() implies is_digit(#[trigger] t[i]) by {
            if i < t.len() - 1 {
                assert(t[i] == decimal_text(n / 10)[i]);
            }
        }
    }
}

/// The string that an expression denotes, if it is a direct string literal.
pub open spec fn string_literal(expr: Expr) -> Option<Seq<char>> {
    match expr {
        Expr::Lit(ExprLit { lit: Lit::Str(token), span }) => str_literal_value(token@),
        _ => None,
    }
}

/// The index that a literal denotes, if it is an integer literal that fits
/// the index type.
pub open spec fn usize_literal(lit: ExprLit) -> Option<usize> {
    match lit.lit {
        Lit::Int(token) => match int_literal_digits(token@) {
            Some(digits) => decimal_index(digits),
            None => None,
        },
        _ => None,
    }
}

/// The index that an expression denotes, if it is a direct integer literal
/// that fits the index type. Nothing is evaluated: any other expression
/// denotes none.
pub open spec fn usize_expr(expr: Expr) -> Option<usize> {
    match expr {
        Expr::Lit(lit) => usize_literal(lit),
        _ => None,
    }
}

/// Extracts the value of a direct string literal, or refuses the expression
/// at its own position.
pub fn extract_string_literal(expr: &Expr) -> (res: Result<String, Diagnostic>)
    ensures
        match res {
            Ok(value) => string_literal(*expr) == Some(value@),
            Err(d) => string_literal(*expr) is None && d == (Diagnostic {
                kind: ErrorKind::NotAStringLiteral,
                span: expr.spec_span(),
            }),
        },
{
    let err = Diagnostic::new(ErrorKind::NotAStringLiteral, expr.span());
    let Expr::Lit(lit) = expr else {
        return Err(err);
    };
    let Lit::Str(token) = &lit.lit else {
        return Err(err);
    };
    match parse_str_literal(token.as_str()) {
        Some(value) => Ok(value),
        None => Err(err),
    }
}

/// Evaluates an expression as an index. Only a direct literal is accepted.
pub fn eval_usize_simple(expr: &Expr) -> (res: Result<usize, Diagnostic>)
    ensures
        match res {
            Ok(value) => usize_expr(*expr) == Some(value),
            Err(d) => usize_expr(*expr) is None && d == (Diagnostic {
                kind: ErrorKind::NotAnIntegerLiteral,
                span: expr.spec_span(),
            }),
        },
{
    match expr {
        Expr::Lit(lit) => eval_usize_lit(lit),
        Expr::Other { tokens: _, span } => Err(
            Diagnostic::new(ErrorKind::NotAnIntegerLiteral, *span),
        ),
    }
}

/// Evaluates a literal as an index. Only an integer literal whose value
/// fits the index type is accepted.
pub fn eval_usize_lit(expr: &ExprLit) -> (res: Result<usize, Diagnostic>)
    ensures
        match res {
            Ok(value) => usize_literal(*expr) == Some(value),
            Err(d) => usize_literal(*expr) is None && d == (Diagnostic {
                kind: ErrorKind::NotAnIntegerLiteral,
                span: expr.span,
            }),
        },
{
    let err = Diagnostic::new(ErrorKind::NotAnIntegerLiteral, expr.span);
    match &expr.lit {
        Lit::Int(token) => match parse_int_literal(token.as_str()) {
            Some(digits) => match parse_decimal(digits.as_str()) {
                Some(value) => Ok(value),
                None => Err(err),
            },
            None => Err(err),
        },
        _ => Err(err),
    }
}


} // verus!
