//! The capability request: which companions to generate, and how names are
//! cased. The request is written as a comma-separated list of options:
//!
//! ```text
//! request := option (',' option)*
//! option  := 'as_str' ['(' casing ')'] | 'display' | 'from_idx'
//! casing  := 'snake_case'
//! ```

use vstd::prelude::*;
use vstd::string::*;
use crate::diag::{Diagnostic, ErrorKind, Span};
use crate::enum_helpers::get_casing;
use crate::utils::{str_equal, Casing};

verus! {

/// The validated set of capabilities.
#[derive(Clone, Copy, Debug, PartialEq, Eq, Structural)]
pub struct GenerationRequest {
    /// Generate `as_str`.
    pub emit_name_accessor: bool,
    /// Generate `from_idx`.
    pub emit_index_lookup: bool,
    /// Generate the display implementation.
    pub emit_display: bool,
    /// How variant identifiers are turned into names.
    pub casing: Casing,
}

/// What a token of the request is.
#[derive(Clone, Copy, Debug, PartialEq, Eq, Structural)]
pub enum TokenKind {
    /// A run of ASCII letters, digits and underscores that does not start
    /// with a digit.
    Ident,
    OpenParen,
    CloseParen,
    Comma,
    /// Any other character, on its own.
    Other,
}

/// A token of the request: its kind and the characters it covers.
#[derive(Clone, Copy, Debug, PartialEq, Eq, Structural)]
pub struct Token {
    pub kind: TokenKind,
    pub span: Span,
}

pub open spec fn is_space(c: char) -> bool {
    c == ' ' || c == '\t' || c == '\n' || c == '\r'
}

pub open spec fn is_ident_start(c: char) -> bool {
    ('a' <= c <= 'z') || ('A' <= c <= 'Z') || c == '_'
}

pub open spec fn is_ident_char(c: char) -> bool {
    is_ident_start(c) || ('0' <= c <= '9')
}

/// The first position at or after `pos` that holds no identifier character.
pub open spec fn ident_end(text: Seq<char>, pos: int) -> int
    decreases text.len() - pos,
{
    if 0 <= pos < text.len() && is_ident_char(text[pos]) {
        ident_end(text, pos + 1)
    } else {
        pos
    }
}

pub proof fn lemma_ident_end_bounds(text: Seq<char>, pos: int)
    requires
        0 <= pos <= text.len(),
    ensures
        pos <= ident_end(text, pos) <= text.len(),
    decreases text.len() - pos,
{
    if pos < text.len() && is_ident_char(text[pos]) {
        lemma_ident_end_bounds(text, pos + 1);
    }
}

/// The kind of the token that starts with `c`.
pub open spec fn kind_of(c: char) -> TokenKind {
    if is_ident_start(c) {
        TokenKind::Ident
    } else if c == '(' {
        TokenKind::OpenParen
    } else if c == ')' {
        TokenKind::CloseParen
    } else if c == ',' {
        TokenKind::Comma
    } else {
        TokenKind::Other
    }
}

/// Where the token that starts at `pos` ends.
pub open spec fn token_end(text: Seq<char>, pos: int) -> int {
    if is_ident_start(text[pos]) {
        ident_end(text, pos + 1)
    } else {
        pos + 1
    }
}

/// The tokens of `text` from `pos` on. Blanks separate tokens and are
/// dropped; an identifier is as long as it can be; every other character is
/// a token of its own.
pub open spec fn lex_from(text: Seq<char>, pos: int) -> Seq<Token>
    decreases text.len() - pos,
{
    if pos < 0 || pos >= text.len() || text.len() > usize::MAX {
        Seq::empty()
    } else if is_space(text[pos]) {
        lex_from(text, pos + 1)
    } else {
        proof {
            lemma_ident_end_bounds(text, pos + 1);
        }
        let end = token_end(text, pos);
        seq![
            Token {
                kind: kind_of(text[pos]),
                span: Span { start: pos as usize, end: end as usize },
            },
        ] + lex_from(text, end)
    }
}

/// The tokens of a request.
pub open spec fn lex(text: Seq<char>) -> Seq<Token> {
    lex_from(text, 0)
}

fn is_space_char(c: char) -> (b: bool)
    ensures
        b == is_space(c),
{
    c == ' ' || c == '\t' || c == '\n' || c == '\r'
}

fn is_ident_start_char(c: char) -> (b: bool)
    ensures
        b == is_ident_start(c),
{
    (c >= 'a' && c <= 'z') || (c >= 'A' && c <= 'Z') || c == '_'
}

fn kind_of_char(c: char) -> (kind: TokenKind)
    ensures
        kind == kind_of(c),
{
    if is_ident_start_char(c) {
        TokenKind::Ident
    } else if c == '(' {
        TokenKind::OpenParen
    } else if c == ')' {
        TokenKind::CloseParen
    } else if c == ',' {
        TokenKind::Comma
    } else {
        TokenKind::Other
    }
}

/// Splits a request into its tokens.
pub fn tokenize(text: &str) -> (tokens: Vec<Token>)
    ensures
        tokens@ == lex(text@),
{
    let len = text.unicode_len();
    let mut tokens: Vec<Token> = Vec::new();
    let mut pos: usize = 0;
    while pos < len
        invariant
            pos <= len,
            len == text@.len(),
            tokens@ + lex_from(text@, pos as int) == lex(text@),
        decreases len - pos,
    {
        let c = text.get_char(pos);
        if is_space_char(c) {
            pos += 1;
        } else {
            let mut end: usize = pos + 1;
            if is_ident_start_char(c) {
                while end < len && is_ident_char_at(text, end)
                    invariant
                        pos < end <= len,
                        len == text@.len(),
                        ident_end(text@, end as int) == ident_end(text@, pos + 1),
                    decreases len - end,
                {
                    end += 1;
                }
            }
            let ghost before = tokens@;
            let token = Token { kind: kind_of_char(c), span: Span { start: pos, end } };
            tokens.push(token);
            proof {
                assert(end == token_end(text@, pos as int));
                assert(before + (seq![token] + lex_from(text@, end as int)) == before.push(token)
                    + lex_from(text@, end as int));
            }
            pos = end;
        }
    }
    assert(lex_from(text@, len as int) == Seq::<Token>::empty());
    assert(tokens@ + Seq::<Token>::empty() == tokens@);
    tokens
}

fn is_ident_char_at(text: &str, pos: usize) -> (b: bool)
    requires
        pos < text@.len(),
    ensures
        b == is_ident_char(text@[pos as int]),
{
    let c = text.get_char(pos);
    is_ident_start_char(c) || (c >= '0' && c <= '9')
}

/// Every token of a request lies inside the request, and is not empty.
pub proof fn lemma_lex_bounds(text: Seq<char>, pos: int)
    requires
        0 <= pos <= text.len(),
    ensures
        forall|k: int|
            0 <= k < lex_from(text, pos).len() ==> pos <= (#[trigger] lex_from(
                text,
                pos,
            )[k]).span.start < lex_from(text, pos)[k].span.end <= text.len(),
    decreases text.len() - pos,
{
    if pos >= text.len() || text.len() > usize::MAX {
    } else if is_space(text[pos]) {
        lemma_lex_bounds(text, pos + 1);
    } else {
        lemma_ident_end_bounds(text, pos + 1);
        let end = token_end(text, pos);
        lemma_lex_bounds(text, end);
        let rest = lex_from(text, end);
        assert forall|k: int| 0 <= k < lex_from(text, pos).len() implies pos <= (#[trigger] lex_from(
            text,
            pos,
        )[k]).span.start < lex_from(text, pos)[k].span.end <= text.len() by {
            if k > 0 {
                assert(lex_from(text, pos)[k] == rest[k - 1]);
            }
        }
    }
}

impl GenerationRequest {
    /// The request that asks for nothing.
    pub open spec fn nothing() -> GenerationRequest {
        GenerationRequest {
            emit_name_accessor: false,
            emit_index_lookup: false,
            emit_display: false,
            casing: Casing::Unchanged,
        }
    }

    /// Whether any capability is asked for.
    pub open spec fn any(self) -> bool {
        self.emit_name_accessor || self.emit_index_lookup || self.emit_display
    }
}

/// The characters that a token covers.
pub open spec fn word(text: Seq<char>, token: Token) -> Seq<char> {
    text.subrange(token.span.start as int, token.span.end as int)
}

/// The empty span behind the last character of the request.
pub open spec fn end_of(text: Seq<char>) -> Span {
    Span { start: text.len() as usize, end: text.len() as usize }
}

/// The span of token `i`, or the end of the request where there is no such
/// token.
pub open spec fn span_at(text: Seq<char>, tokens: Seq<Token>, i: int) -> Span {
    if 0 <= i < tokens.len() {
        tokens[i].span
    } else {
        end_of(text)
    }
}

pub open spec fn refusal(kind: ErrorKind, span: Span) -> Diagnostic {
    Diagnostic { kind, span }
}

/// The casing modifier that follows `as_str` when token `i` opens a
/// parenthesis: the request with the casing set and the index of the token
/// behind the closing parenthesis. The modifier must be the identifier
/// `snake_case`.
pub open spec fn casing_at(
    text: Seq<char>,
    tokens: Seq<Token>,
    i: int,
    req: GenerationRequest,
) -> Result<(GenerationRequest, int), Diagnostic> {
    if i + 1 >= tokens.len() {
        Err(refusal(ErrorKind::MalformedRequest, end_of(text)))
    } else if tokens[i + 1].kind != TokenKind::Ident || word(text, tokens[i + 1])
        != "snake_case"@ {
        Err(refusal(ErrorKind::UnknownCasing, tokens[i + 1].span))
    } else if i + 2 < tokens.len() && tokens[i + 2].kind == TokenKind::CloseParen {
        Ok((GenerationRequest { casing: Casing::SnakeCase, ..req }, i + 3))
    } else {
        Err(refusal(ErrorKind::MalformedRequest, span_at(text, tokens, i + 2)))
    }
}

/// The option that starts at token `i`: the request with the option added
/// and the index of the token behind the option. An identifier that is not
/// an option's name is refused as unsupported, at its own span.
pub open spec fn option_at(
    text: Seq<char>,
    tokens: Seq<Token>,
    i: int,
    req: GenerationRequest,
) -> Result<(GenerationRequest, int), Diagnostic> {
    if i < 0 || i >= tokens.len() || tokens[i].kind != TokenKind::Ident {
        Err(refusal(ErrorKind::MalformedRequest, span_at(text, tokens, i)))
    } else if word(text, tokens[i]) == "as_str"@ {
        let named = GenerationRequest { emit_name_accessor: true, ..req };
        if i + 1 < tokens.len() && tokens[i + 1].kind == TokenKind::OpenParen {
            casing_at(text, tokens, i + 1, named)
        } else {
            Ok((named, i + 1))
        }
    } else if word(text, tokens[i]) == "display"@ {
        Ok((GenerationRequest { emit_display: true, ..req }, i + 1))
    } else if word(text, tokens[i]) == "from_idx"@ {
        Ok((GenerationRequest { emit_index_lookup: true, ..req }, i + 1))
    } else {
        Err(refusal(ErrorKind::UnsupportedOption, tokens[i].span))
    }
}

/// The request that the options from token `i` on add up to, starting from
/// `req`. Options are separated by single commas; the first refusal ends the
/// parse.
pub open spec fn parse_from(
    text: Seq<char>,
    tokens: Seq<Token>,
    i: int,
    req: GenerationRequest,
) -> Result<GenerationRequest, Diagnostic>
    decreases tokens.len() - i,
{
    match option_at(text, tokens, i, req) {
        Err(d) => Err(d),
        Ok((next_req, next)) => {
            if next >= tokens.len() {
                Ok(next_req)
            } else if tokens[next].kind == TokenKind::Comma {
                parse_from(text, tokens, next + 1, next_req)
            } else {
                Err(refusal(ErrorKind::MalformedRequest, tokens[next].span))
            }
        },
    }
}

/// What a request text means.
pub open spec fn parse(text: Seq<char>) -> Result<GenerationRequest, Diagnostic> {
    parse_from(text, lex(text), 0, GenerationRequest::nothing())
}

fn end_span(text: &str) -> (span: Span)
    ensures
        span == end_of(text@),
{
    let len = text.unicode_len();
    Span { start: len, end: len }
}

fn token_word<'a>(text: &'a str, token: Token) -> (w: &'a str)
    requires
        token.span.start <= token.span.end <= text@.len(),
    ensures
        w@ == word(text@, token),
{
    text.substring_char(token.span.start, token.span.end)
}

/// Parses a capability request.
pub fn parse_request(text: &str) -> (res: Result<GenerationRequest, Diagnostic>)
    ensures
        res == parse(text@),
{
    let tokens = tokenize(text);
    proof {
        lemma_lex_bounds(text@, 0);
    }
    let n = tokens.len();
    let mut req = GenerationRequest {
        emit_name_accessor: false,
        emit_index_lookup: false,
        emit_display: false,
        casing: Casing::Unchanged,
    };
    let mut i: usize = 0;
    loop
        invariant
            i <= n,
            n == tokens@.len(),
            tokens@ == lex(text@),
            forall|k: int|
                0 <= k < tokens@.len() ==> (#[trigger] tokens@[k]).span.start
                    < tokens@[k].span.end <= text@.len(),
            parse_from(text@, tokens@, i as int, req) == parse(text@),
        decreases n - i,
    {
        if i >= n {
            return Err(Diagnostic::new(ErrorKind::MalformedRequest, end_span(text)));
        }
        let token = tokens[i];
        if token.kind != TokenKind::Ident {
            return Err(Diagnostic::new(ErrorKind::MalformedRequest, token.span));
        }
        let name = token_word(text, token);
        let mut next: usize = i + 1;
        if str_equal(name, "as_str") {
            req.emit_name_accessor = true;
            if i + 1 < n && tokens[i + 1].kind == TokenKind::OpenParen {
                if i + 2 >= n {
                    return Err(Diagnostic::new(ErrorKind::MalformedRequest, end_span(text)));
                }
                let modifier = tokens[i + 2];
                if modifier.kind != TokenKind::Ident {
                    return Err(Diagnostic::new(ErrorKind::UnknownCasing, modifier.span));
                }
                match get_casing(token_word(text, modifier)) {
                    Ok(casing) => {
                        req.casing = casing;
                    },
                    Err(_) => {
                        return Err(Diagnostic::new(ErrorKind::UnknownCasing, modifier.span));
                    },
                }
                if i + 3 < n && tokens[i + 3].kind == TokenKind::CloseParen {
                    next = i + 4;
                } else if i + 3 < n {
                    return Err(Diagnostic::new(ErrorKind::MalformedRequest, tokens[i + 3].span));
                } else {
                    return Err(Diagnostic::new(ErrorKind::MalformedRequest, end_span(text)));
                }
            }
        } else if str_equal(name, "display") {
            req.emit_display = true;
        } else if str_equal(name, "from_idx") {
            req.emit_index_lookup = true;
        } else {
            return Err(Diagnostic::new(ErrorKind::UnsupportedOption, token.span));
        }
        if next >= n {
            return Ok(req);
        }
        if tokens[next].kind != TokenKind::Comma {
            return Err(Diagnostic::new(ErrorKind::MalformedRequest, tokens[next].span));
        }
        i = next + 1;
    }
}


} // verus!
