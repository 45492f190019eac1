//! The generated declarations, as source text.

use vstd::prelude::*;
use vstd::string::*;
use crate::analyze::{views, ResolvedVariant, ResolvedView};
use crate::request::GenerationRequest;
use crate::utils::{decimal_string, decimal_text, literal_text, render_string_literal};

verus! {

/// The parts in order, one behind the other.
pub open spec fn concat(parts: Seq<Seq<char>>) -> Seq<char>
    decreases parts.len(),
{
    if parts.len() == 0 {
        Seq::empty()
    } else {
        concat(parts.drop_last()) + parts.last()
    }
}

/// The arm of the index lookup for one variant: its index gives the variant.
/// A variant without an index or a pattern has no arm.
pub open spec fn index_arm(r: ResolvedView) -> Seq<char> {
    match (r.index, r.simple_pattern) {
        (Some(index), Some(pattern)) => "            "@ + decimal_text(index as nat)
            + "usize => Some("@ + pattern + "),\n"@,
        _ => Seq::empty(),
    }
}

/// An arm of the name accessor: the pattern gives the literal.
pub open spec fn name_arm_of(pattern: Seq<char>, literal: Seq<char>) -> Seq<char> {
    "            "@ + pattern + " => "@ + literal + ",\n"@
}

/// The arm of the name accessor for one variant: the variant gives its
/// name, written as a string literal. A variant without a name or a pattern
/// has no arm.
pub open spec fn name_arm(r: ResolvedView) -> Seq<char> {
    match (r.name, r.simple_pattern) {
        (Some(name), Some(pattern)) => name_arm_of(pattern, literal_text(name)),
        _ => Seq::empty(),
    }
}

/// The statement that discards one bound name.
pub open spec fn discard(name: Seq<char>) -> Seq<char> {
    "                _ = "@ + name + ";\n"@
}

/// The statements that discard the bound names, in order.
pub open spec fn discard_block(names: Seq<Seq<char>>) -> Seq<char> {
    concat(Seq::new(names.len(), |i: int| discard(names[i])))
}

/// The arm of the display implementation for one variant: every field is
/// bound and discarded, then the format template is written. A variant
/// without a full pattern or a template has no arm.
pub open spec fn display_arm(r: ResolvedView) -> Seq<char> {
    match (r.full_pattern, r.format) {
        (Some(pattern), Some(format)) => "            "@ + pattern + " => {\n"@ + discard_block(
            r.discards,
        ) + "                write!(f, "@ + format + ")\n            },\n"@,
        _ => Seq::empty(),
    }
}

pub open spec fn index_arms(resolved: Seq<ResolvedView>) -> Seq<char> {
    concat(Seq::new(resolved.len(), |i: int| index_arm(resolved[i])))
}

pub open spec fn name_arms(resolved: Seq<ResolvedView>) -> Seq<char> {
    concat(Seq::new(resolved.len(), |i: int| name_arm(resolved[i])))
}

pub open spec fn display_arms(resolved: Seq<ResolvedView>) -> Seq<char> {
    concat(Seq::new(resolved.len(), |i: int| display_arm(resolved[i])))
}

/// The index lookup: the arms in declaration order, so that the first
/// variant with an index answers for it, and none for every other index.
pub open spec fn from_idx_text(resolved: Seq<ResolvedView>) -> Seq<char> {
    "    pub fn from_idx(idx: usize) -> Option<Self> {\n        match idx {\n"@ + index_arms(
        resolved,
    ) + "            _ => None,\n        }\n    }\n"@
}

/// The name accessor: one arm for each variant.
pub open spec fn as_str_text(resolved: Seq<ResolvedView>) -> Seq<char> {
    "    pub fn as_str(self) -> &'static str {\n        match self {\n"@ + name_arms(resolved)
        + "        }\n    }\n"@
}

pub open spec fn display_head(ident: Seq<char>) -> Seq<char> {
    "impl std::fmt::Display for "@ + ident
        + " {\n    fn fmt(&self, f: &mut std::fmt::Formatter<'_>) -> std::fmt::Result {\n"@
}

/// The display implementation: it hands over to the name accessor where
/// there is one, and else formats each variant by its own template.
pub open spec fn display_text(ident: Seq<char>, named: bool, resolved: Seq<ResolvedView>) -> Seq<
    char,
> {
    if named {
        display_head(ident) + "        f.write_str(self.as_str())\n    }\n}\n"@
    } else {
        display_head(ident) + "        match self {\n"@ + display_arms(resolved)
            + "        }\n    }\n}\n"@
    }
}

/// The whole output: the definition as it was written, under the derive
/// that makes the helper annotations known, then the inherent functions,
/// then the display implementation, each only if requested.
pub open spec fn output_text(
    ident: Seq<char>,
    source: Seq<char>,
    req: GenerationRequest,
    resolved: Seq<ResolvedView>,
) -> Seq<char> {
    "#[derive(bootstrap_macros::EnumHelper)]\n"@ + source + "\n\nimpl "@ + ident + " {\n"@ + (
    if req.emit_index_lookup {
        from_idx_text(resolved)
    } else {
        Seq::empty()
    }) + (if req.emit_name_accessor {
        as_str_text(resolved)
    } else {
        Seq::empty()
    }) + "}\n"@ + (if req.emit_display {
        "\n"@ + display_text(ident, req.emit_name_accessor, resolved)
    } else {
        Seq::empty()
    })
}

/// Emits the index lookup.
pub fn emit_from_idx(resolved: &Vec<ResolvedVariant>) -> (out: String)
    ensures
        out@ == from_idx_text(views(resolved@)),
{
    let mut out = String::from_str(
        "    pub fn from_idx(idx: usize) -> Option<Self> {\n        match idx {\n",
    );
    let ghost head = out@;
    let ghost arms = Seq::new(resolved@.len(), |i: int| index_arm(views(resolved@)[i]));
    let mut i: usize = 0;
    while i < resolved.len()
        invariant
            i <= resolved.len(),
            arms == Seq::new(resolved@.len(), |i: int| index_arm(views(resolved@)[i])),
            out@ == head + concat(arms.take(i as int)),
        decreases resolved.len() - i,
    {
        let r = &resolved[i];
        let mut arm = String::new();
        match (&r.index, &r.simple_pattern) {
            (Some(index), Some(pattern)) => {
                arm.append("            ");
                arm.append(decimal_string(*index).as_str());
                arm.append("usize => Some(");
                arm.append(pattern.as_str());
                arm.append("),\n");
            },
            _ => {},
        }
        proof {
            assert(arm@ == index_arm(r@));
            assert(arms.take(i + 1).drop_last() == arms.take(i as int));
            assert(arms.take(i + 1).last() == arm@);
        }
        out.append(arm.as_str());
        i += 1;
    }
    proof {
        assert(arms.take(resolved@.len() as int) == arms);
    }
    out.append("            _ => None,\n        }\n    }\n");
    out
}

/// Writes an arm of the name accessor, from the pattern and the string
/// literal that it gives.
pub fn name_arm_text(pattern: &str, literal: &str) -> (arm: String)
    ensures
        arm@ == name_arm_of(pattern@, literal@),
{
    let mut arm = String::from_str("            ");
    arm.append(pattern);
    arm.append(" => ");
    arm.append(literal);
    arm.append(",\n");
    arm
}

/// Emits the name accessor.
pub fn emit_as_str(resolved: &Vec<ResolvedVariant>) -> (out: String)
    ensures
        out@ == as_str_text(views(resolved@)),
{
    let mut out = String::from_str(
        "    pub fn as_str(self) -> &'static str {\n        match self {\n",
    );
    let ghost head = out@;
    let ghost arms = Seq::new(resolved@.len(), |i: int| name_arm(views(resolved@)[i]));
    let mut i: usize = 0;
    while i < resolved.len()
        invariant
            i <= resolved.len(),
            arms == Seq::new(resolved@.len(), |i: int| name_arm(views(resolved@)[i])),
            out@ == head + concat(arms.take(i as int)),
        decreases resolved.len() - i,
    {
        let r = &resolved[i];
        let arm = match (&r.name, &r.simple_pattern) {
            (Some(name), Some(pattern)) => name_arm_text(
                pattern.as_str(),
                render_string_literal(name.as_str()).as_str(),
            ),
            _ => String::new(),
        };
        proof {
            assert(arm@ == name_arm(r@));
            assert(arms.take(i + 1).drop_last() == arms.take(i as int));
            assert(arms.take(i + 1).last() == arm@);
        }
        out.append(arm.as_str());
        i += 1;
    }
    proof {
        assert(arms.take(resolved@.len() as int) == arms);
    }
    out.append("        }\n    }\n");
    out
}

/// Emits the statements that discard the bound names.
pub fn emit_discards(names: &Vec<String>) -> (out: String)
    ensures
        out@ == discard_block(crate::utils::texts(names@)),
{
    let mut out = String::new();
    let ghost lines = Seq::new(names@.len(), |i: int| discard(crate::utils::texts(names@)[i]));
    let mut i: usize = 0;
    while i < names.len()
        invariant
            i <= names.len(),
            lines == Seq::new(names@.len(), |i: int| discard(crate::utils::texts(names@)[i])),
            out@ == concat(lines.take(i as int)),
        decreases names.len() - i,
    {
        let mut line = String::from_str("                _ = ");
        line.append(names[i].as_str());
        line.append(";\n");
        proof {
            assert(line@ == discard(names@[i as int]@));
            assert(lines.take(i + 1).drop_last() == lines.take(i as int));
            assert(lines.take(i + 1).last() == line@);
        }
        out.append(line.as_str());
        i += 1;
    }
    proof {
        assert(lines.take(names@.len() as int) == lines);
    }
    out
}

/// Emits the display implementation for the type named `ident`. With
/// `named` it hands over to the name accessor.
pub fn emit_display(ident: &str, named: bool, resolved: &Vec<ResolvedVariant>) -> (out: String)
    ensures
        out@ == display_text(ident@, named, views(resolved@)),
{
    let mut out = String::from_str("impl std::fmt::Display for ");
    out.append(ident);
    out.append(" {\n    fn fmt(&self, f: &mut std::fmt::Formatter<'_>) -> std::fmt::Result {\n");
    assert(out@ == display_head(ident@));
    if named {
        out.append("        f.write_str(self.as_str())\n    }\n}\n");
        return out;
    }
    out.append("        match self {\n");
    let ghost head = out@;
    let ghost arms = Seq::new(resolved@.len(), |i: int| display_arm(views(resolved@)[i]));
    let mut i: usize = 0;
    while i < resolved.len()
        invariant
            i <= resolved.len(),
            arms == Seq::new(resolved@.len(), |i: int| display_arm(views(resolved@)[i])),
            out@ == head + concat(arms.take(i as int)),
        decreases resolved.len() - i,
    {
        let r = &resolved[i];
        let mut arm = String::new();
        match (&r.full_pattern, &r.format) {
            (Some(pattern), Some(format)) => {
                arm.append("            ");
                arm.append(pattern.as_str());
                arm.append(" => {\n");
                arm.append(emit_discards(&r.discards).as_str());
                arm.append("                write!(f, ");
                arm.append(format.as_str());
                arm.append(")\n            },\n");
            },
            _ => {},
        }
        proof {
            assert(arm@ == display_arm(r@));
            assert(arms.take(i + 1).drop_last() == arms.take(i as int));
            assert(arms.take(i + 1).last() == arm@);
        }
        out.append(arm.as_str());
        i += 1;
    }
    proof {
        assert(arms.take(resolved@.len() as int) == arms);
    }
    out.append("        }\n    }\n}\n");
    out
}

/// Assembles the output for the type named `ident`, written as `source`.
pub fn emit(ident: &str, source: &str, req: &GenerationRequest, resolved: &Vec<ResolvedVariant>) -> (out:
    String)
    ensures
        out@ == output_text(ident@, source@, *req, views(resolved@)),
{
    let mut out = String::from_str("#[derive(bootstrap_macros::EnumHelper)]\n");
    out.append(source);
    out.append("\n\nimpl ");
    out.append(ident);
    out.append(" {\n");
    let ghost head = out@;
    if req.emit_index_lookup {
        out.append(emit_from_idx(resolved).as_str());
    }
    let ghost mid = out@;
    if req.emit_name_accessor {
        out.append(emit_as_str(resolved).as_str());
    }
    out.append("}\n");
    let ghost body = out@;
    if req.emit_display {
        out.append("\n");
        out.append(emit_display(ident, req.emit_name_accessor, resolved).as_str());
        assert(out@ == body + ("\n"@ + display_text(
            ident@,
            req.emit_name_accessor,
            views(resolved@),
        )));
    } else {
        assert(out@ == body + Seq::<char>::empty());
    }
    proof {
        if !req.emit_index_lookup {
            assert(mid == head + Seq::<char>::empty());
        }
        if !req.emit_name_accessor {
            assert(body == mid + Seq::<char>::empty() + "}\n"@);
        }
    }
    out
}

} // verus!
