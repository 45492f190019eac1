//! The transformation itself: request, analysis and emission in turn.

use vstd::prelude::*;
use vstd::string::*;
use crate::analyze::{analyze, first_error, resolutions};
use crate::diag::{Diagnostic, ErrorKind};
use crate::emit::{emit, output_text};
use crate::model::{EnumDefinition, Item};
use crate::request::{parse, parse_request, refusal, GenerationRequest};
use crate::utils::{str_equal, Casing};

verus! {

/// The casing that a casing modifier names. Only `snake_case` is known; for
/// anything else the refusal text is handed back.
pub fn get_casing(ident: &str) -> (res: Result<Casing, &'static str>)
    ensures
        match res {
            Ok(casing) => ident@ == "snake_case"@ && casing == Casing::SnakeCase,
            Err(msg) => ident@ != "snake_case"@ && msg@ == ErrorKind::UnknownCasing.text(),
        },
{
    if str_equal(ident, "snake_case") {
        Ok(Casing::SnakeCase)
    } else {
        Err(ErrorKind::UnknownCasing.message())
    }
}

/// What the transformation of a definition under a validated request
/// gives: the first refusal that the variants meet, in declaration order,
/// or else the output for what was derived from them.
pub open spec fn transformed(def: EnumDefinition, req: GenerationRequest) -> Result<
    Seq<char>,
    Diagnostic,
> {
    match first_error(def.variants@, req, def.variants@.len() as int) {
        Some(d) => Err(d),
        None => Ok(output_text(def.ident@, def.source@, req, resolutions(def.variants@, req))),
    }
}

/// What a request attached to an item gives. An item that is no enumerated
/// type is refused before anything else is looked at; then the request is
/// parsed; then the definition is transformed.
pub open spec fn expansion(request: Seq<char>, item: Item) -> Result<Seq<char>, Diagnostic> {
    match item {
        Item::Other { span } => Err(refusal(ErrorKind::NotAnEnum, span)),
        Item::Enum(def) => match parse(request) {
            Err(d) => Err(d),
            Ok(req) => transformed(def, req),
        },
    }
}

/// Analyses the variants and emits the requested declarations. Nothing is
/// emitted when a variant is refused.
pub fn transform(def: &EnumDefinition, req: &GenerationRequest) -> (res: Result<
    String,
    Diagnostic,
>)
    ensures
        match res {
            Ok(out) => transformed(*def, *req) == Ok::<Seq<char>, Diagnostic>(out@),
            Err(d) => transformed(*def, *req) == Err::<Seq<char>, Diagnostic>(d),
        },
{
    match analyze(&def.variants, req) {
        Ok(resolved) => {
            Ok(emit(def.ident.as_str(), def.source.as_str(), req, &resolved))
        },
        Err(d) => Err(d),
    }
}

/// Expands a capability request attached to an item: the generated source
/// text, or the first refusal.
pub fn enum_utils(request: &str, item: &Item) -> (res: Result<String, Diagnostic>)
    ensures
        match res {
            Ok(out) => expansion(request@, *item) == Ok::<Seq<char>, Diagnostic>(out@),
            Err(d) => expansion(request@, *item) == Err::<Seq<char>, Diagnostic>(d),
        },
{
    match item {
        Item::Other { span } => Err(Diagnostic::new(ErrorKind::NotAnEnum, *span)),
        Item::Enum(def) => match parse_request(request) {
            Ok(req) => transform(def, &req),
            Err(d) => Err(d),
        },
    }
}


} // verus!
