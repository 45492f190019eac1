//! The enumerated-type definition as the engine reads it: plain values,
//! in declaration order.

use vstd::prelude::*;
use crate::diag::Span;

verus! {

/// A literal token, held as the text it was written with.
#[derive(Clone, Debug, PartialEq, Eq)]
pub enum Lit {
    /// A string literal, quotes and escapes included.
    Str(String),
    /// An integer literal, with its radix prefix and suffix if it has them.
    Int(String),
    /// Any other literal.
    Other(String),
}

/// An expression that is exactly one literal.
#[derive(Clone, Debug, PartialEq, Eq)]
pub struct ExprLit {
    pub lit: Lit,
    pub span: Span,
}

/// An expression written in an annotation or as a discriminant.
#[derive(Clone, Debug, PartialEq, Eq)]
pub enum Expr {
    /// A direct literal.
    Lit(ExprLit),
    /// Anything else, kept as its source text.
    Other { tokens: String, span: Span },
}

/// The shape of a variant's fields.
#[derive(Clone, Debug, PartialEq, Eq)]
pub enum FieldKind {
    Unit,
    /// Unnamed fields; only their number matters.
    Positional(usize),
    /// Named fields, in declaration order.
    Named(Vec<String>),
}

/// A helper annotation on a variant: a key and, unless it was written as a
/// bare key, its argument list.
#[derive(Clone, Debug, PartialEq, Eq)]
pub struct Annotation {
    pub key: String,
    pub args: Option<Vec<Expr>>,
    pub span: Span,
}

/// One variant of the enumerated type.
#[derive(Clone, Debug, PartialEq, Eq)]
pub struct VariantDefinition {
    pub ident: String,
    pub fields: FieldKind,
    pub annotations: Vec<Annotation>,
    pub discriminant: Option<Expr>,
}

/// An enumerated type: its name, its variants in declaration order, and the
/// source text that is emitted again beside the generated code.
#[derive(Clone, Debug, PartialEq, Eq)]
pub struct EnumDefinition {
    pub ident: String,
    pub variants: Vec<VariantDefinition>,
    pub source: String,
}

/// The item that the request is attached to.
#[derive(Clone, Debug, PartialEq, Eq)]
pub enum Item {
    Enum(EnumDefinition),
    /// A struct, a union or anything else that has no variants.
    Other { span: Span },
}

impl Lit {
    /// The text of the literal token.
    pub open spec fn token(self) -> Seq<char> {
        match self {
            Lit::Str(t) => t@,
            Lit::Int(t) => t@,
            Lit::Other(t) => t@,
        }
    }
}

impl Expr {
    /// Where the expression was written.
    pub open spec fn spec_span(&self) -> Span {
        match *self {
            Expr::Lit(lit) => lit.span,
            Expr::Other { tokens, span } => span,
        }
    }

    /// The source text of the expression.
    pub open spec fn text(self) -> Seq<char> {
        match self {
            Expr::Lit(lit) => lit.lit.token(),
            Expr::Other { tokens, span } => tokens@,
        }
    }

    /// Where the expression was written.
    #[verifier::when_used_as_spec(spec_span)]
    pub fn span(&self) -> (span: Span)
        ensures
            span == self.spec_span(),
    {
        match self {
            Expr::Lit(lit) => lit.span,
            Expr::Other { tokens: _, span } => *span,
        }
    }

    /// The source text of the expression.
    pub fn tokens(&self) -> (text: &str)
        ensures
            text@ == self.text(),
    {
        match self {
            Expr::Lit(lit) => match &lit.lit {
                Lit::Str(t) => t.as_str(),
                Lit::Int(t) => t.as_str(),
                Lit::Other(t) => t.as_str(),
            },
            Expr::Other { tokens, span: _ } => tokens.as_str(),
        }
    }
}

} // verus!
