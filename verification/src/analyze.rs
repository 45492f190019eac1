//! The single pass over the variants: patterns, names, indices and format
//! templates, in declaration order.

use vstd::prelude::*;
use vstd::string::*;
use crate::diag::{Diagnostic, ErrorKind};
use crate::model::{Annotation, Expr, FieldKind, VariantDefinition};
use crate::request::{refusal, GenerationRequest};
use crate::utils::{
    cased, decimal_string, decimal_text, eval_usize_simple, extract_string_literal, join,
    join_texts, lemma_texts_push, literal_text, opt_text, push_char, render_string_literal, str_equal,
    string_literal, texts, to_case, usize_expr, Casing,
};

verus! {

/// What the pass derives from one variant. A part is present exactly when a
/// requested capability needs it.
#[derive(Clone, Debug, PartialEq, Eq)]
pub struct ResolvedVariant {
    /// The pattern that matches the variant whatever its fields hold.
    pub simple_pattern: Option<String>,
    /// The pattern that binds every field by name.
    pub full_pattern: Option<String>,
    /// The names bound by the full pattern, each to be discarded.
    pub discards: Vec<String>,
    /// The name that the name accessor returns.
    pub name: Option<String>,
    /// The index under which the index lookup finds the variant.
    pub index: Option<usize>,
    /// The arguments handed to the formatter.
    pub format: Option<String>,
}

/// A resolved variant with its texts as character sequences.
pub struct ResolvedView {
    pub simple_pattern: Option<Seq<char>>,
    pub full_pattern: Option<Seq<char>>,
    pub discards: Seq<Seq<char>>,
    pub name: Option<Seq<char>>,
    pub index: Option<usize>,
    pub format: Option<Seq<char>>,
}

impl View for ResolvedVariant {
    type V = ResolvedView;

    open spec fn view(&self) -> ResolvedView {
        ResolvedView {
            simple_pattern: opt_text(self.simple_pattern),
            full_pattern: opt_text(self.full_pattern),
            discards: texts(self.discards@),
            name: opt_text(self.name),
            index: self.index,
            format: opt_text(self.format),
        }
    }
}

/// Where the overrides of a variant stand in its annotation list.
#[derive(Clone, Copy, Debug, PartialEq, Eq, Structural)]
pub struct AnnotationIndex {
    /// The annotation that overrides the name.
    pub name_override: Option<usize>,
    /// The annotation that overrides the format template.
    pub format_override: Option<usize>,
}

pub open spec fn as_pos(pos: Option<usize>) -> Option<int> {
    match pos {
        Some(p) => Some(p as int),
        None => None,
    }
}

/// The name override among the first `n` annotations: the first one with
/// the key `string`.
pub open spec fn name_pos(annotations: Seq<Annotation>, n: int) -> Option<int>
    decreases n,
{
    if n <= 0 {
        None
    } else {
        match name_pos(annotations, n - 1) {
            Some(p) => Some(p),
            None => if annotations[n - 1].key@ == "string"@ {
                Some(n - 1)
            } else {
                None
            },
        }
    }
}

/// The format override among the first `n` annotations: the first one with
/// the key `fmt` that lacks an argument list if there is one, else the last
/// one with that key.
pub open spec fn format_pos(annotations: Seq<Annotation>, n: int) -> Option<int>
    decreases n,
{
    if n <= 0 {
        None
    } else {
        let before = format_pos(annotations, n - 1);
        if before is Some && annotations[before->0].args is None {
            before
        } else if annotations[n - 1].key@ == "fmt"@ {
            Some(n - 1)
        } else {
            before
        }
    }
}

/// The name override is the first annotation with the key `string`; there
/// is none exactly when no annotation has that key.
///
/// The format override has the key `fmt`. If it lacks an argument list, it
/// is the first annotation with that key that does. If it has one, every
/// annotation with that key has one, and none stands behind it. There is
/// none exactly when no annotation has that key.
pub proof fn lemma_positions(annotations: Seq<Annotation>, n: int)
    requires
        0 <= n <= annotations.len(),
    ensures
        match name_pos(annotations, n) {
            Some(p) => {
                &&& 0 <= p < n
                &&& annotations[p].key@ == "string"@
                &&& forall|q: int| 0 <= q < p ==> annotations[q].key@ != "string"@
            },
            None => forall|q: int| 0 <= q < n ==> annotations[q].key@ != "string"@,
        },
        match format_pos(annotations, n) {
            Some(p) => {
                &&& 0 <= p < n
                &&& annotations[p].key@ == "fmt"@
                &&& forall|q: int|
                    0 <= q < p && annotations[q].key@ == "fmt"@ ==> annotations[q].args is Some
                &&& annotations[p].args is Some ==> forall|q: int|
                    p < q < n ==> annotations[q].key@ != "fmt"@
            },
            None => forall|q: int| 0 <= q < n ==> annotations[q].key@ != "fmt"@,
        },
    decreases n,
{
    if n > 0 {
        lemma_positions(annotations, n - 1);
    }
}

/// Finds the overrides of a variant in one pass over its annotations.
pub fn index_annotations(annotations: &Vec<Annotation>) -> (idx: AnnotationIndex)
    ensures
        as_pos(idx.name_override) == name_pos(annotations@, annotations@.len() as int),
        as_pos(idx.format_override) == format_pos(annotations@, annotations@.len() as int),
        idx.name_override is Some ==> idx.name_override->0 < annotations@.len(),
        idx.format_override is Some ==> idx.format_override->0 < annotations@.len(),
{
    let mut name_override: Option<usize> = None;
    let mut format_override: Option<usize> = None;
    let mut i: usize = 0;
    while i < annotations.len()
        invariant
            i <= annotations.len(),
            as_pos(name_override) == name_pos(annotations@, i as int),
            as_pos(format_override) == format_pos(annotations@, i as int),
            name_override is Some ==> name_override->0 < i,
            format_override is Some ==> format_override->0 < i,
        decreases annotations.len() - i,
    {
        let key = annotations[i].key.as_str();
        if name_override.is_none() && str_equal(key, "string") {
            name_override = Some(i);
        }
        let stuck = match format_override {
            Some(p) => annotations[p].args.is_none(),
            None => false,
        };
        if !stuck && str_equal(key, "fmt") {
            format_override = Some(i);
        }
        i += 1;
    }
    AnnotationIndex { name_override, format_override }
}

/// The pattern that matches the variant and ignores its fields.
pub open spec fn simple_pattern(v: VariantDefinition) -> Seq<char> {
    "Self::"@ + v.ident@ + match v.fields {
        FieldKind::Named(_) => "{ .. }"@,
        FieldKind::Positional(_) => "(..)"@,
        FieldKind::Unit => ""@,
    }
}

/// The name under which positional field `i` is bound.
pub open spec fn positional_name(i: int) -> Seq<char> {
    seq!['_'] + decimal_text(i as nat)
}

/// The names that the full pattern binds, in field order: named fields keep
/// their names, positional fields are numbered.
pub open spec fn bound_names(fields: FieldKind) -> Seq<Seq<char>> {
    match fields {
        FieldKind::Named(names) => texts(names@),
        FieldKind::Positional(count) => Seq::new(count as nat, |i: int| positional_name(i)),
        FieldKind::Unit => Seq::empty(),
    }
}

/// The pattern that matches the variant and binds every field.
pub open spec fn full_pattern(v: VariantDefinition) -> Seq<char> {
    "Self::"@ + v.ident@ + match v.fields {
        FieldKind::Named(_) => "{"@ + join(bound_names(v.fields), ", "@) + "}"@,
        FieldKind::Positional(_) => "("@ + join(bound_names(v.fields), ", "@) + ")"@,
        FieldKind::Unit => ""@,
    }
}

/// Successor in the index space, which wraps at its upper end.
pub open spec fn wrap_inc(c: usize) -> usize {
    if c == usize::MAX {
        0
    } else {
        (c + 1) as usize
    }
}

/// One step of index resolution: the variant's index, and the counter for
/// the variant after it. An explicit value is taken and becomes the
/// counter; without one the counter is taken and moves on by one.
pub open spec fn index_step(explicit: Option<usize>, next_auto_index: usize) -> (usize, usize) {
    match explicit {
        Some(k) => (k, k),
        None => (next_auto_index, wrap_inc(next_auto_index)),
    }
}

/// The explicit index of a variant, if its discriminant is one.
pub open spec fn explicit_index(v: VariantDefinition) -> Option<usize> {
    match v.discriminant {
        Some(expr) => usize_expr(expr),
        None => None,
    }
}

/// Why the index of a variant cannot be resolved, if it cannot: it has a
/// discriminant that is no index.
pub open spec fn index_error(v: VariantDefinition) -> Option<Diagnostic> {
    match v.discriminant {
        Some(expr) => if usize_expr(expr) is None {
            Some(refusal(ErrorKind::NotAnIntegerLiteral, expr.spec_span()))
        } else {
            None
        },
        None => None,
    }
}

/// What a name override says: it must carry exactly one argument, a direct
/// string literal.
pub open spec fn override_name(a: Annotation) -> Result<Seq<char>, Diagnostic> {
    match a.args {
        Some(args) => if args@.len() == 1 {
            match string_literal(args@[0]) {
                Some(name) => Ok(name),
                None => Err(refusal(ErrorKind::NotAStringLiteral, args@[0].spec_span())),
            }
        } else {
            Err(refusal(ErrorKind::NotAStringLiteral, a.span))
        },
        None => Err(refusal(ErrorKind::NotAStringLiteral, a.span)),
    }
}

/// The name of a variant: what its name override says, else its identifier
/// in the requested casing.
pub open spec fn name_outcome(v: VariantDefinition, casing: Casing) -> Result<
    Seq<char>,
    Diagnostic,
> {
    match name_pos(v.annotations@, v.annotations@.len() as int) {
        Some(p) => override_name(v.annotations@[p]),
        None => Ok(cased(v.ident@, casing)),
    }
}

/// The source texts of a list of expressions.
pub open spec fn expr_texts(args: Seq<Expr>) -> Seq<Seq<char>> {
    Seq::new(args.len(), |i: int| args[i].text())
}

/// The format template of a variant: the arguments of its format override
/// as they were written, else the string literal of its identifier in the
/// requested casing.
pub open spec fn format_outcome(v: VariantDefinition, casing: Casing) -> Result<
    Seq<char>,
    Diagnostic,
> {
    match format_pos(v.annotations@, v.annotations@.len() as int) {
        Some(p) => match v.annotations@[p].args {
            Some(args) => Ok(join(expr_texts(args@), ", "@)),
            None => Err(refusal(ErrorKind::MissingFormatValue, v.annotations@[p].span)),
        },
        None => Ok(literal_text(cased(v.ident@, casing))),
    }
}

/// The first refusal that a variant meets: its index is resolved first,
/// then its name, then its format template, each only if requested.
pub open spec fn variant_error(v: VariantDefinition, req: GenerationRequest) -> Option<
    Diagnostic,
> {
    if req.emit_index_lookup && index_error(v) is Some {
        index_error(v)
    } else if req.emit_name_accessor && name_outcome(v, req.casing) is Err {
        Some(name_outcome(v, req.casing)->Err_0)
    } else if req.emit_display && format_outcome(v, req.casing) is Err {
        Some(format_outcome(v, req.casing)->Err_0)
    } else {
        None
    }
}

/// The counter that a variant leaves for the next one.
pub open spec fn counter_after(
    v: VariantDefinition,
    req: GenerationRequest,
    next_auto_index: usize,
) -> usize {
    if req.emit_index_lookup {
        index_step(explicit_index(v), next_auto_index).1
    } else {
        next_auto_index
    }
}

/// What the pass derives from `v` when the counter stands at
/// `next_auto_index`, on a variant that meets no refusal.
pub open spec fn resolution(
    v: VariantDefinition,
    req: GenerationRequest,
    next_auto_index: usize,
) -> ResolvedView {
    ResolvedView {
        simple_pattern: if req.any() {
            Some(simple_pattern(v))
        } else {
            None
        },
        full_pattern: if req.emit_display {
            Some(full_pattern(v))
        } else {
            None
        },
        discards: if req.emit_display {
            bound_names(v.fields)
        } else {
            Seq::empty()
        },
        name: if req.emit_name_accessor {
            Some(name_outcome(v, req.casing)->Ok_0)
        } else {
            None
        },
        index: if req.emit_index_lookup {
            Some(index_step(explicit_index(v), next_auto_index).0)
        } else {
            None
        },
        format: if req.emit_display {
            Some(format_outcome(v, req.casing)->Ok_0)
        } else {
            None
        },
    }
}

/// Whether `r` is what the pass derives from `v` when the counter stands at
/// `next_auto_index`.
pub open spec fn resolved_as(
    r: ResolvedVariant,
    v: VariantDefinition,
    req: GenerationRequest,
    next_auto_index: usize,
) -> bool {
    r@ == resolution(v, req, next_auto_index)
}

/// Builds the pattern that matches the variant and ignores its fields.
pub fn build_simple_pattern(v: &VariantDefinition) -> (pat: String)
    ensures
        pat@ == simple_pattern(*v),
{
    let mut pat = String::from_str("Self::");
    pat.append(v.ident.as_str());
    match &v.fields {
        FieldKind::Named(_) => pat.append("{ .. }"),
        FieldKind::Positional(_) => pat.append("(..)"),
        FieldKind::Unit => pat.append(""),
    }
    pat
}

/// Lists the names that the full pattern binds.
pub fn build_bound_names(fields: &FieldKind) -> (names: Vec<String>)
    ensures
        texts(names@) == bound_names(*fields),
{
    let mut names: Vec<String> = Vec::new();
    match fields {
        FieldKind::Named(declared) => {
            let mut i: usize = 0;
            while i < declared.len()
                invariant
                    i <= declared.len(),
                    texts(names@) == texts(declared@).take(i as int),
                decreases declared.len() - i,
            {
                let ghost before = names@;
                let name = declared[i].clone();
                names.push(name);
                proof {
                    lemma_texts_push(before, name);
                    assert(texts(names@) =~= texts(declared@).take(i + 1));
                }
                i += 1;
            }
            assert(texts(declared@).take(declared.len() as int) == texts(declared@));
        },
        FieldKind::Positional(count) => {
            let mut i: usize = 0;
            while i < *count
                invariant
                    i <= *count,
                    texts(names@) == Seq::new(i as nat, |k: int| positional_name(k)),
                decreases *count - i,
            {
                let mut name = String::new();
                push_char(&mut name, '_');
                name.append(decimal_string(i).as_str());
                let ghost before = names@;
                names.push(name);
                proof {
                    lemma_texts_push(before, name);
                    assert(texts(names@) =~= Seq::new(
                        (i + 1) as nat,
                        |k: int| positional_name(k),
                    ));
                }
                i += 1;
            }
        },
        FieldKind::Unit => {
            assert(texts(names@) == Seq::<Seq<char>>::empty());
        },
    }
    names
}

/// Builds the pattern that matches the variant and binds the given names.
fn full_pattern_with(v: &VariantDefinition, names: &Vec<String>) -> (pat: String)
    requires
        texts(names@) == bound_names(v.fields),
    ensures
        pat@ == full_pattern(*v),
{
    let mut pat = String::from_str("Self::");
    pat.append(v.ident.as_str());
    match &v.fields {
        FieldKind::Named(_) => {
            let ghost head = pat@;
            pat.append("{");
            pat.append(join_texts(names, ", ").as_str());
            pat.append("}");
            assert(pat@ == head + ("{"@ + join(bound_names(v.fields), ", "@) + "}"@));
        },
        FieldKind::Positional(_) => {
            let ghost head = pat@;
            pat.append("(");
            pat.append(join_texts(names, ", ").as_str());
            pat.append(")");
            assert(pat@ == head + ("("@ + join(bound_names(v.fields), ", "@) + ")"@));
        },
        FieldKind::Unit => pat.append(""),
    }
    pat
}

/// Builds the pattern that matches the variant and binds every field.
pub fn build_full_pattern(v: &VariantDefinition) -> (pat: String)
    ensures
        pat@ == full_pattern(*v),
{
    let names = build_bound_names(&v.fields);
    full_pattern_with(v, &names)
}

/// One step of index resolution, from the explicit index of the variant, if
/// it has one, and the counter: the variant's index and the counter for the
/// next variant.
pub fn resolve_index(explicit: Option<usize>, next_auto_index: usize) -> (step: (usize, usize))
    ensures
        step == index_step(explicit, next_auto_index),
{
    match explicit {
        Some(k) => (k, k),
        None => {
            let after = if next_auto_index == usize::MAX {
                0
            } else {
                next_auto_index + 1
            };
            (next_auto_index, after)
        },
    }
}

/// Resolves the name of a variant, with its overrides found.
fn resolve_name(v: &VariantDefinition, overrides: &AnnotationIndex, casing: Casing) -> (res:
    Result<String, Diagnostic>)
    requires
        as_pos(overrides.name_override) == name_pos(v.annotations@, v.annotations@.len() as int),
    ensures
        match res {
            Ok(name) => name_outcome(*v, casing) == Ok::<Seq<char>, Diagnostic>(name@),
            Err(d) => name_outcome(*v, casing) == Err::<Seq<char>, Diagnostic>(d),
        },
{
    proof {
        lemma_positions(v.annotations@, v.annotations@.len() as int);
    }
    match overrides.name_override {
        Some(p) => {
            let a = &v.annotations[p];
            match &a.args {
                Some(args) => {
                    if args.len() == 1 {
                        extract_string_literal(&args[0])
                    } else {
                        Err(Diagnostic::new(ErrorKind::NotAStringLiteral, a.span))
                    }
                },
                None => Err(Diagnostic::new(ErrorKind::NotAStringLiteral, a.span)),
            }
        },
        None => Ok(to_case(v.ident.clone(), casing)),
    }
}

/// Writes a list of expressions as they were written, separated by commas.
pub fn join_exprs(args: &Vec<Expr>) -> (out: String)
    ensures
        out@ == join(expr_texts(args@), ", "@),
{
    let mut parts: Vec<String> = Vec::new();
    let mut i: usize = 0;
    while i < args.len()
        invariant
            i <= args.len(),
            texts(parts@) == expr_texts(args@).take(i as int),
        decreases args.len() - i,
    {
        let ghost before = parts@;
        let part = String::from_str(args[i].tokens());
        parts.push(part);
        proof {
            lemma_texts_push(before, part);
            assert(texts(parts@) =~= expr_texts(args@).take(i + 1));
        }
        i += 1;
    }
    assert(expr_texts(args@).take(args.len() as int) == expr_texts(args@));
    join_texts(&parts, ", ")
}

/// Resolves the format template of a variant, with its overrides found.
fn resolve_format(v: &VariantDefinition, overrides: &AnnotationIndex, casing: Casing) -> (res:
    Result<String, Diagnostic>)
    requires
        as_pos(overrides.format_override) == format_pos(
            v.annotations@,
            v.annotations@.len() as int,
        ),
    ensures
        match res {
            Ok(template) => format_outcome(*v, casing) == Ok::<Seq<char>, Diagnostic>(template@),
            Err(d) => format_outcome(*v, casing) == Err::<Seq<char>, Diagnostic>(d),
        },
{
    proof {
        lemma_positions(v.annotations@, v.annotations@.len() as int);
    }
    match overrides.format_override {
        Some(p) => {
            let a = &v.annotations[p];
            match &a.args {
                Some(args) => Ok(join_exprs(args)),
                None => Err(Diagnostic::new(ErrorKind::MissingFormatValue, a.span)),
            }
        },
        None => {
            let name = to_case(v.ident.clone(), casing);
            Ok(render_string_literal(name.as_str()))
        },
    }
}

/// Resolves one variant, with the counter as it stands before it. Gives
/// what was derived together with the counter for the next variant, or the
/// first refusal.
pub fn resolve_variant(v: &VariantDefinition, req: &GenerationRequest, next_auto_index: usize) -> (res:
    Result<(ResolvedVariant, usize), Diagnostic>)
    ensures
        match res {
            Ok((r, next)) => {
                &&& variant_error(*v, *req) is None
                &&& resolved_as(r, *v, *req, next_auto_index)
                &&& next == counter_after(*v, *req, next_auto_index)
            },
            Err(d) => variant_error(*v, *req) == Some(d),
        },
{
    let wanted = req.emit_index_lookup || req.emit_name_accessor || req.emit_display;
    let simple = if wanted {
        Some(build_simple_pattern(v))
    } else {
        None
    };
    let mut full: Option<String> = None;
    let mut discards: Vec<String> = Vec::new();
    if req.emit_display {
        discards = build_bound_names(&v.fields);
        full = Some(full_pattern_with(v, &discards));
    } else {
        assert(texts(discards@) == Seq::<Seq<char>>::empty());
    }
    let mut index: Option<usize> = None;
    let mut next = next_auto_index;
    if req.emit_index_lookup {
        let explicit = match &v.discriminant {
            Some(expr) => match eval_usize_simple(expr) {
                Ok(k) => Some(k),
                Err(d) => {
                    return Err(d);
                },
            },
            None => None,
        };
        let step = resolve_index(explicit, next_auto_index);
        index = Some(step.0);
        next = step.1;
    }
    let overrides = index_annotations(&v.annotations);
    let mut name: Option<String> = None;
    if req.emit_name_accessor {
        match resolve_name(v, &overrides, req.casing) {
            Ok(n) => {
                name = Some(n);
            },
            Err(d) => {
                return Err(d);
            },
        }
    }
    let mut format: Option<String> = None;
    if req.emit_display {
        match resolve_format(v, &overrides, req.casing) {
            Ok(t) => {
                format = Some(t);
            },
            Err(d) => {
                return Err(d);
            },
        }
    }
    Ok(
        (
            ResolvedVariant { simple_pattern: simple, full_pattern: full, discards, name, index, format },
            next,
        ),
    )
}

/// The counter as it stands before variant `i`: zero before the first, and
/// after that what the variant before left.
pub open spec fn counter_before(
    variants: Seq<VariantDefinition>,
    req: GenerationRequest,
    i: int,
) -> usize
    decreases i,
{
    if i <= 0 {
        0
    } else {
        counter_after(variants[i - 1], req, counter_before(variants, req, i - 1))
    }
}

/// The first refusal among the first `n` variants, in declaration order.
pub open spec fn first_error(
    variants: Seq<VariantDefinition>,
    req: GenerationRequest,
    n: int,
) -> Option<Diagnostic>
    decreases n,
{
    if n <= 0 {
        None
    } else {
        match first_error(variants, req, n - 1) {
            Some(d) => Some(d),
            None => variant_error(variants[n - 1], req),
        }
    }
}

/// What the pass derives from the variants, one for one, when none of them
/// meets a refusal.
pub open spec fn resolutions(variants: Seq<VariantDefinition>, req: GenerationRequest) -> Seq<
    ResolvedView,
> {
    Seq::new(
        variants.len(),
        |i: int| resolution(variants[i], req, counter_before(variants, req, i)),
    )
}

/// The views of a list of resolved variants.
pub open spec fn views(resolved: Seq<ResolvedVariant>) -> Seq<ResolvedView> {
    Seq::new(resolved.len(), |i: int| resolved[i]@)
}

/// Walks the variants once, in declaration order, and derives from each
/// what the requested capabilities need. The first refusal aborts the pass.
pub fn analyze(variants: &Vec<VariantDefinition>, req: &GenerationRequest) -> (res: Result<
    Vec<ResolvedVariant>,
    Diagnostic,
>)
    ensures
        match res {
            Ok(resolved) => {
                &&& first_error(variants@, *req, variants@.len() as int) is None
                &&& views(resolved@) == resolutions(variants@, *req)
            },
            Err(d) => first_error(variants@, *req, variants@.len() as int) == Some(d),
        },
{
    let mut resolved: Vec<ResolvedVariant> = Vec::new();
    let mut next_auto_index: usize = 0;
    let mut i: usize = 0;
    while i < variants.len()
        invariant
            i <= variants.len(),
            resolved@.len() == i,
            first_error(variants@, *req, i as int) is None,
            next_auto_index == counter_before(variants@, *req, i as int),
            forall|k: int|
                0 <= k < i ==> resolved_as(
                    #[trigger] resolved@[k],
                    variants@[k],
                    *req,
                    counter_before(variants@, *req, k),
                ),
        decreases variants.len() - i,
    {
        match resolve_variant(&variants[i], req, next_auto_index) {
            Ok((r, next)) => {
                resolved.push(r);
                next_auto_index = next;
            },
            Err(d) => {
                proof {
                    lemma_first_error_sticks(variants@, *req, i + 1, variants@.len() as int);
                }
                return Err(d);
            },
        }
        i += 1;
    }
    assert(views(resolved@) =~= resolutions(variants@, *req));
    Ok(resolved)
}

/// Once a refusal has been met, later variants do not change it.
pub proof fn lemma_first_error_sticks(
    variants: Seq<VariantDefinition>,
    req: GenerationRequest,
    n: int,
    m: int,
)
    requires
        0 <= n <= m,
        first_error(variants, req, n) is Some,
    ensures
        first_error(variants, req, m) == first_error(variants, req, n),
    decreases m - n,
{
    if n < m {
        lemma_first_error_sticks(variants, req, n, m - 1);
    }
}

/// The first refusal is the refusal of the first variant that meets one;
/// there is none exactly when no variant meets one.
pub proof fn lemma_first_error(variants: Seq<VariantDefinition>, req: GenerationRequest, n: int)
    requires
        0 <= n <= variants.len(),
    ensures
        match first_error(variants, req, n) {
            Some(d) => exists|i: int|
                {
                    &&& 0 <= i < n
                    &&& #[trigger] variant_error(variants[i], req) == Some(d)
                    &&& forall|j: int| 0 <= j < i ==> variant_error(variants[j], req) is None
                },
            None => forall|i: int| 0 <= i < n ==> variant_error(variants[i], req) is None,
        },
    decreases n,
{
    if n > 0 {
        lemma_first_error(variants, req, n - 1);
        if first_error(variants, req, n - 1) is None && variant_error(variants[n - 1], req)
            is Some {
            assert(variant_error(variants[n - 1], req) == first_error(variants, req, n));
        }
    }
}

} // verus!
