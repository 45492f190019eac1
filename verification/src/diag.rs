//! Source positions and the diagnostics that abort a transformation.

use vstd::prelude::*;

verus! {

/// A range of the text that the host handed in. The engine never looks
/// inside a span: it only carries it from the offending input to the
/// diagnostic, so that the host can point at the right place.
#[derive(Clone, Copy, Debug, PartialEq, Eq, Structural)]
pub struct Span {
    pub start: usize,
    pub end: usize,
}

/// Why a transformation was refused.
#[derive(Clone, Copy, Debug, PartialEq, Eq, Structural)]
pub enum ErrorKind {
    /// The annotated item is not an enumerated type.
    NotAnEnum,
    /// The request names a capability that does not exist.
    UnsupportedOption,
    /// The casing modifier is not a known casing.
    UnknownCasing,
    /// A name override does not carry exactly one string literal.
    NotAStringLiteral,
    /// An explicit discriminant is not an unsigned integer literal that fits
    /// the index type.
    NotAnIntegerLiteral,
    /// A format override was written without an argument list.
    MissingFormatValue,
    /// The request does not follow the request grammar.
    MalformedRequest,
}

/// A refusal together with the place that caused it.
#[derive(Clone, Copy, Debug, PartialEq, Eq, Structural)]
pub struct Diagnostic {
    pub kind: ErrorKind,
    pub span: Span,
}

impl ErrorKind {
    /// The text shown to the author for this kind of refusal.
    pub open spec fn text(self) -> Seq<char> {
        match self {
            ErrorKind::NotAnEnum => "enum utilities are only supported on enums"@,
            ErrorKind::UnsupportedOption => "Unsupported utility"@,
            ErrorKind::UnknownCasing => "Unknown case"@,
            ErrorKind::NotAStringLiteral => "Expected string literal"@,
            ErrorKind::NotAnIntegerLiteral => "Can only resolve integer literals"@,
            ErrorKind::MissingFormatValue => "Expected arguments in parentheses for `fmt`"@,
            ErrorKind::MalformedRequest => "Malformed utility request"@,
        }
    }

    pub fn message(self) -> (msg: &'static str)
        ensures
            msg@ == self.text(),
    {
        match self {
            ErrorKind::NotAnEnum => "enum utilities are only supported on enums",
            ErrorKind::UnsupportedOption => "Unsupported utility",
            ErrorKind::UnknownCasing => "Unknown case",
            ErrorKind::NotAStringLiteral => "Expected string literal",
            ErrorKind::NotAnIntegerLiteral => "Can only resolve integer literals",
            ErrorKind::MissingFormatValue => "Expected arguments in parentheses for `fmt`",
            ErrorKind::MalformedRequest => "Malformed utility request",
        }
    }
}

impl Diagnostic {
    pub fn new(kind: ErrorKind, span: Span) -> (d: Diagnostic)
        ensures
            d == (Diagnostic { kind, span }),
    {
        Diagnostic { kind, span }
    }

    /// The text shown to the author.
    pub fn message(&self) -> (msg: &'static str)
        ensures
            msg@ == self.kind.text(),
    {
        self.kind.message()
    }
}

} // verus!
