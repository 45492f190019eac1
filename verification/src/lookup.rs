//! What the generated index lookup answers, and what follows for the
//! indices that the analysis assigns.

use vstd::prelude::*;
use vstd::arithmetic::div_mod::{lemma_add_mod_noop, lemma_mod_self_0, lemma_small_mod};
use crate::analyze::{
    counter_before, explicit_index, index_step, name_outcome, name_pos, override_name,
    index_error, resolutions, variant_error, views, wrap_inc, ResolvedVariant,
};
use crate::diag::{Diagnostic, ErrorKind};
use crate::model::VariantDefinition;
use crate::request::{
    option_at, parse_from, refusal, word, GenerationRequest, Token, TokenKind,
};
use crate::utils::{string_literal, Casing};

verus! {

/// The index that variant `i` is given when indices are requested.
pub open spec fn index_at(variants: Seq<VariantDefinition>, req: GenerationRequest, i: int) -> usize {
    index_step(explicit_index(variants[i]), counter_before(variants, req, i)).0
}

/// The indices of the variants, in declaration order.
pub open spec fn indices(variants: Seq<VariantDefinition>, req: GenerationRequest) -> Seq<usize> {
    Seq::new(variants.len(), |i: int| index_at(variants, req, i))
}

/// The position that the lookup answers with among the first `n` arms: the
/// arms are tried in declaration order, so the first one with the index
/// answers.
pub open spec fn first_with(arms: Seq<usize>, idx: usize, n: int) -> Option<int>
    decreases n,
{
    if n <= 0 {
        None
    } else {
        match first_with(arms, idx, n - 1) {
            Some(p) => Some(p),
            None => if arms[n - 1] == idx {
                Some(n - 1)
            } else {
                None
            },
        }
    }
}

/// The position of the variant that the generated lookup gives for `idx`.
pub open spec fn lookup(arms: Seq<usize>, idx: usize) -> Option<int> {
    first_with(arms, idx, arms.len() as int)
}

/// The lookup answers with an arm that carries the index and that no arm
/// with the same index precedes; it answers with none exactly when no arm
/// carries the index.
pub proof fn lemma_first_with(arms: Seq<usize>, idx: usize, n: int)
    requires
        0 <= n <= arms.len(),
    ensures
        match first_with(arms, idx, n) {
            Some(p) => 0 <= p < n && arms[p] == idx && forall|q: int|
                0 <= q < p ==> arms[q] != idx,
            None => forall|q: int| 0 <= q < n ==> arms[q] != idx,
        },
    decreases n,
{
    if n > 0 {
        lemma_first_with(arms, idx, n - 1);
    }
}

/// The position of the first resolved variant that carries `idx`.
pub open spec fn first_resolved(resolved: Seq<ResolvedVariant>, idx: usize, n: int) -> Option<int>
    decreases n,
{
    if n <= 0 {
        None
    } else {
        match first_resolved(resolved, idx, n - 1) {
            Some(p) => Some(p),
            None => if resolved[n - 1].index == Some(idx) {
                Some(n - 1)
            } else {
                None
            },
        }
    }
}

/// Answers as the generated lookup does: with the position of the first
/// variant, in declaration order, whose index is `idx`.
pub fn find_index(resolved: &Vec<ResolvedVariant>, idx: usize) -> (found: Option<usize>)
    ensures
        match found {
            Some(p) => first_resolved(resolved@, idx, resolved@.len() as int) == Some(p as int),
            None => first_resolved(resolved@, idx, resolved@.len() as int) is None,
        },
{
    let mut i: usize = 0;
    while i < resolved.len()
        invariant
            i <= resolved.len(),
            first_resolved(resolved@, idx, i as int) is None,
        decreases resolved.len() - i,
    {
        match resolved[i].index {
            Some(k) => {
                if k == idx {
                    proof {
                        lemma_first_resolved_sticks(resolved@, idx, i + 1, resolved@.len() as int);
                    }
                    return Some(i);
                }
            },
            None => {},
        }
        i += 1;
    }
    None
}

/// Once an arm has answered, later arms do not change the answer.
pub proof fn lemma_first_resolved_sticks(resolved: Seq<ResolvedVariant>, idx: usize, n: int, m: int)
    requires
        0 <= n <= m,
        first_resolved(resolved, idx, n) is Some,
    ensures
        first_resolved(resolved, idx, m) == first_resolved(resolved, idx, n),
    decreases m - n,
{
    if n < m {
        lemma_first_resolved_sticks(resolved, idx, n, m - 1);
    }
}

/// On what the analysis derived with indices requested, `find_index`
/// answers as the lookup over the assigned indices does.
pub proof fn lemma_find_index_is_lookup(
    resolved: Seq<ResolvedVariant>,
    variants: Seq<VariantDefinition>,
    req: GenerationRequest,
    idx: usize,
    n: int,
)
    requires
        req.emit_index_lookup,
        views(resolved) == resolutions(variants, req),
        0 <= n <= variants.len(),
    ensures
        first_resolved(resolved, idx, n) == first_with(indices(variants, req), idx, n),
    decreases n,
{
    if n > 0 {
        lemma_find_index_is_lookup(resolved, variants, req, idx, n - 1);
        assert(views(resolved).len() == resolved.len());
        assert(resolutions(variants, req).len() == variants.len());
        assert(views(resolved)[n - 1] == resolved[n - 1]@);
        assert(resolved[n - 1]@.index == Some(index_at(variants, req, n - 1)));
    }
}

/// Whether no variant carries a discriminant.
pub open spec fn no_discriminants(variants: Seq<VariantDefinition>) -> bool {
    forall|i: int| 0 <= i < variants.len() ==> (#[trigger] variants[i]).discriminant is None
}

/// Without discriminants the counter before a variant is the variant's
/// position.
pub proof fn lemma_counter_counts(variants: Seq<VariantDefinition>, req: GenerationRequest, i: int)
    requires
        req.emit_index_lookup,
        no_discriminants(variants),
        0 <= i <= variants.len(),
        i <= usize::MAX,
    ensures
        counter_before(variants, req, i) == i,
    decreases i,
{
    if i > 0 {
        lemma_counter_counts(variants, req, i - 1);
        assert(variants[i - 1].discriminant is None);
    }
}

/// Default numbering. When indices are requested and no variant carries a
/// discriminant, variant `i` of `N` gets the index `i`; so the generated
/// lookup gives variant `i` for every `i` below `N`, and none for every
/// other index.
pub proof fn lemma_default_indices(variants: Seq<VariantDefinition>, req: GenerationRequest)
    requires
        req.emit_index_lookup,
        no_discriminants(variants),
        variants.len() <= usize::MAX,
    ensures
        forall|i: int| 0 <= i < variants.len() ==> #[trigger] index_at(variants, req, i) == i,
        forall|idx: usize|
            idx < variants.len() ==> #[trigger] lookup(indices(variants, req), idx) == Some(
                idx as int,
            ),
        forall|idx: usize|
            idx >= variants.len() ==> #[trigger] lookup(indices(variants, req), idx) is None,
{
    assert forall|i: int| 0 <= i < variants.len() implies #[trigger] index_at(variants, req, i)
        == i by {
        lemma_counter_counts(variants, req, i);
        assert(variants[i].discriminant is None);
    }
    let arms = indices(variants, req);
    assert forall|idx: usize| idx < variants.len() implies #[trigger] lookup(arms, idx) == Some(
        idx as int,
    ) by {
        lemma_first_with(arms, idx, arms.len() as int);
        assert(arms[idx as int] == idx);
    }
    assert forall|idx: usize| idx >= variants.len() implies #[trigger] lookup(arms, idx)
        is None by {
        lemma_first_with(arms, idx, arms.len() as int);
    }
}

/// Numbering after a discriminant. When variant `i` carries the
/// discriminant `k` and the variants behind it up to `j` carry none, the
/// counter is re-seeded with `k` itself: variant `i + 1` gets `k`, variant
/// `i + 2` gets `k + 1`, and so on, wrapping at the end of the index space.
pub proof fn lemma_indices_after_discriminant(
    variants: Seq<VariantDefinition>,
    req: GenerationRequest,
    i: int,
    j: int,
    k: usize,
)
    requires
        req.emit_index_lookup,
        0 <= i < j < variants.len(),
        explicit_index(variants[i]) == Some(k),
        forall|m: int| i < m <= j ==> (#[trigger] variants[m]).discriminant is None,
    ensures
        index_at(variants, req, i) == k,
        index_at(variants, req, j) as int == (k + (j - i - 1)) % (usize::MAX + 1),
    decreases j - i,
{
    let modulus = usize::MAX + 1;
    assert(variants[j].discriminant is None);
    if j == i + 1 {
        assert(counter_before(variants, req, j) == k);
        lemma_small_mod(k as nat, modulus as nat);
    } else {
        lemma_indices_after_discriminant(variants, req, i, j - 1, k);
        assert(variants[j - 1].discriminant is None);
        let before = counter_before(variants, req, j - 1);
        assert(index_at(variants, req, j - 1) == before);
        assert(counter_before(variants, req, j) == wrap_inc(before));
        let a = k + (j - i - 2);
        assert(before as int == a % modulus);
        lemma_add_mod_noop(a, 1, modulus);
        lemma_small_mod(1, modulus as nat);
        if before == usize::MAX {
            assert((before + 1) % modulus == 0) by {
                lemma_mod_self_0(modulus);
            }
        } else {
            lemma_small_mod((before + 1) as nat, modulus as nat);
        }
    }
}

/// Round trip. The generated lookup, asked for the index of variant `i`,
/// gives the first variant in declaration order that has this index; where
/// no two variants share an index, that is variant `i` itself.
pub proof fn lemma_lookup_round_trip(variants: Seq<VariantDefinition>, req: GenerationRequest, i: int)
    requires
        0 <= i < variants.len(),
    ensures
        match lookup(indices(variants, req), index_at(variants, req, i)) {
            Some(p) => {
                &&& 0 <= p <= i
                &&& index_at(variants, req, p) == index_at(variants, req, i)
                &&& forall|q: int|
                    0 <= q < p ==> index_at(variants, req, q) != index_at(variants, req, i)
            },
            None => false,
        },
        (forall|a: int, b: int|
            0 <= a < b < variants.len() ==> index_at(variants, req, a) != index_at(
                variants,
                req,
                b,
            )) ==> lookup(indices(variants, req), index_at(variants, req, i)) == Some(i),
{
    let arms = indices(variants, req);
    let idx = index_at(variants, req, i);
    lemma_first_with(arms, idx, arms.len() as int);
    assert(arms[i] == idx);
    match lookup(arms, idx) {
        Some(p) => {
            assert(arms[p] == idx);
            assert forall|q: int| 0 <= q < p implies index_at(variants, req, q) != idx by {
                assert(arms[q] != idx);
            }
            if p > i {
                assert(arms[i] != idx);
            }
        },
        None => {},
    }
}

/// Name overrides win. Where the name override of a variant carries one
/// string literal, the variant's name is that literal's value under every
/// casing; the position of the variant plays no part in it.
pub proof fn lemma_override_wins(v: VariantDefinition, casing: Casing, p: int, name: Seq<char>)
    requires
        name_pos(v.annotations@, v.annotations@.len() as int) == Some(p),
        v.annotations@[p].args is Some,
        v.annotations@[p].args->0@.len() == 1,
        string_literal(v.annotations@[p].args->0@[0]) == Some(name),
    ensures
        name_outcome(v, casing) == Ok::<Seq<char>, Diagnostic>(name),
{
}

/// A name override that carries one argument which is no string literal is
/// refused at that argument; where names are requested and the variant's
/// index resolves, this is the refusal that the variant meets.
pub proof fn lemma_override_refused(v: VariantDefinition, req: GenerationRequest, p: int)
    requires
        name_pos(v.annotations@, v.annotations@.len() as int) == Some(p),
        v.annotations@[p].args is Some,
        v.annotations@[p].args->0@.len() == 1,
        string_literal(v.annotations@[p].args->0@[0]) is None,
    ensures
        name_outcome(v, req.casing) == Err::<Seq<char>, Diagnostic>(
            refusal(ErrorKind::NotAStringLiteral, v.annotations@[p].args->0@[0].spec_span()),
        ),
        req.emit_name_accessor && !(req.emit_index_lookup && index_error(v) is Some)
            ==> variant_error(v, req) == Some(
            refusal(ErrorKind::NotAStringLiteral, v.annotations@[p].args->0@[0].spec_span()),
        ),
{
    assert(override_name(v.annotations@[p]) is Err);
}

/// Unknown options. Wherever an option is expected and an identifier
/// stands that names none, the request is refused as unsupported, at that
/// identifier.
pub proof fn lemma_unknown_option(text: Seq<char>, tokens: Seq<Token>, i: int, req: GenerationRequest)
    requires
        0 <= i < tokens.len(),
        tokens[i].kind == TokenKind::Ident,
        word(text, tokens[i]) != "as_str"@,
        word(text, tokens[i]) != "display"@,
        word(text, tokens[i]) != "from_idx"@,
    ensures
        parse_from(text, tokens, i, req) == Err::<GenerationRequest, Diagnostic>(
            refusal(ErrorKind::UnsupportedOption, tokens[i].span),
        ),
{
    assert(option_at(text, tokens, i, req) is Err);
}

} // verus!
