//! The recursive declaration renderer.
//!
//! The mathematical model is `spec_render_decl` / `spec_render_seq`: for a
//! declaration and an indentation depth they give the exact ordered sequence
//! of output lines, each a sequence of characters. The executable renderer
//! is proved to produce precisely those lines.
//!
//! Depth bookkeeping: a line at depth `d` starts with `2 * d` spaces, and
//! the children of a module rendered at depth `d` are rendered at depth
//! `d + 2`. The model places no bound on the depth; the executable
//! renderer requires (`spec_fits_seq`) that every depth it must reach fits
//! a `usize`, and `try_render` checks that bound first and declines safely
//! on pathological nesting instead of overflowing.

use vstd::prelude::*;

use crate::decl::Decl;
use crate::decl::FieldDef;
use crate::decl::Fields;
use crate::decl::FieldsShape;
use crate::decl::Parameter;
use crate::decl::VariantInfo;
use crate::numeral::push_decimal;
use crate::numeral::spec_decimal;

verus! {

/// The indentation prefix of a line at the given depth: two spaces per
/// depth unit.
pub open spec fn spec_indent(depth: nat) -> Seq<char> {
    Seq::new(2 * depth, |i: int| ' ')
}

/// One output line at the given depth: the indentation prefix followed by
/// the line's body.
pub open spec fn spec_line(depth: nat, body: Seq<char>) -> Seq<char> {
    spec_indent(depth) + body
}

/// The optional sub-line for an attribute that is rendered only when
/// present: nothing when absent, one line with the given label otherwise.
pub open spec fn spec_opt_line(depth: nat, label: Seq<char>, v: Option<String>) -> Seq<
    Seq<char>,
> {
    match v {
        Some(s) => seq![spec_line(depth, label + s@)],
        None => Seq::empty(),
    }
}

/// The sub-line for one function parameter: its index, then either `self`
/// for a receiver or the parameter's pattern and type.
pub open spec fn spec_param_line(p: Parameter, i: nat, depth: nat) -> Seq<char> {
    match p {
        Parameter::Receiver => spec_line(
            depth,
            "    └─ ["@ + spec_decimal(i) + "] self"@,
        ),
        Parameter::Typed { pattern, ty } => spec_line(
            depth,
            "    └─ ["@ + spec_decimal(i) + "] "@ + pattern@ + " : "@ + ty@,
        ),
    }
}

/// The sub-lines for a function's parameters, in declaration order.
pub open spec fn spec_param_lines(ps: Seq<Parameter>, depth: nat) -> Seq<Seq<char>> {
    Seq::new(ps.len(), |i: int| spec_param_line(ps[i], i as nat, depth))
}

/// The sub-lines for a record's named fields, in declaration order.
pub open spec fn spec_named_field_lines(fs: Seq<FieldDef>, depth: nat) -> Seq<Seq<char>> {
    Seq::new(
        fs.len(),
        |i: int| spec_line(depth, "    └─ "@ + fs[i].name@ + " : "@ + fs[i].ty@),
    )
}

/// The sub-lines for a record's unnamed fields, positionally indexed.
pub open spec fn spec_unnamed_field_lines(ts: Seq<String>, depth: nat) -> Seq<Seq<char>> {
    Seq::new(
        ts.len(),
        |i: int| spec_line(depth, "    └─ ["@ + spec_decimal(i as nat) + "] : "@ + ts[i]@),
    )
}

/// The sub-lines for a record's fields: a marker line naming the shape,
/// then one line per field; a unit record gets a single marker line.
pub open spec fn spec_fields_lines(f: Fields, depth: nat) -> Seq<Seq<char>> {
    match f {
        Fields::Named(fs) => seq![spec_line(depth, "  └─ Named Fields:"@)]
            + spec_named_field_lines(fs@, depth),
        Fields::Unnamed(ts) => seq![spec_line(depth, "  └─ Tuple Fields:"@)]
            + spec_unnamed_field_lines(ts@, depth),
        Fields::Unit => seq![spec_line(depth, "  └─ Unit Struct"@)],
    }
}

/// The sub-line for one enumeration variant: its name with a suffix giving
/// the shape of its data.
pub open spec fn spec_variant_line(v: VariantInfo, depth: nat) -> Seq<char> {
    match v.shape {
        FieldsShape::Named => spec_line(depth, "    └─ "@ + v.name@ + " { ... }"@),
        FieldsShape::Unnamed => spec_line(depth, "    └─ "@ + v.name@ + "(...)"@),
        FieldsShape::Unit => spec_line(depth, "    └─ "@ + v.name@),
    }
}

/// The sub-lines for an enumeration's variants, in declaration order.
pub open spec fn spec_variant_lines(vs: Seq<VariantInfo>, depth: nat) -> Seq<Seq<char>> {
    Seq::new(vs.len(), |i: int| spec_variant_line(vs[i], depth))
}

/// The ordered lines describing one declaration rendered at the given
/// depth. Every declaration kind produces at least its header line; the
/// children of a module with a present body follow the module's own lines
/// at depth increased by two.
pub open spec fn spec_render_decl(d: Decl, depth: nat) -> Seq<Seq<char>>
    decreases d,
{
    match d {
        Decl::FunctionDecl { name, params, ret, generics } => seq![
            spec_line(depth, "Function: "@ + name@),
            spec_line(depth, "  └─ Inputs: "@ + spec_decimal(params@.len())),
        ] + spec_param_lines(params@, depth) + spec_opt_line(depth, "  └─ Output: "@, ret)
            + spec_opt_line(depth, "  └─ Generics: "@, generics),
        Decl::RecordDecl { name, generics, fields } => seq![
            spec_line(depth, "Struct: "@ + name@),
        ] + spec_opt_line(depth, "  └─ Generics: "@, generics) + spec_fields_lines(
            fields,
            depth,
        ),
        Decl::EnumDecl { name, generics, variants } => seq![spec_line(depth, "Enum: "@ + name@)]
            + spec_opt_line(depth, "  └─ Generics: "@, generics) + seq![
            spec_line(depth, "  └─ Variants:"@),
        ] + spec_variant_lines(variants@, depth),
        Decl::ImplBlock { self_ty, trait_ref, item_count } => seq![
            spec_line(depth, "Impl: "@ + self_ty@),
        ] + spec_opt_line(depth, "  └─ Trait: "@, trait_ref) + seq![
            spec_line(depth, "  └─ Items: "@ + spec_decimal(item_count as nat)),
        ],
        Decl::ModuleDecl { name, items } => match items {
            Some(children) => seq![
                spec_line(depth, "Module: "@ + name@),
                spec_line(depth, "  └─ Items: "@ + spec_decimal(children@.len())),
            ] + spec_render_seq(children@, depth + 2),
            None => seq![spec_line(depth, "Module: "@ + name@)],
        },
        Decl::UseDecl { tree } => seq![spec_line(depth, "Use: "@ + tree@)],
        Decl::TypeAliasDecl { name, ty } => seq![
            spec_line(depth, "Type Alias: "@ + name@ + " = "@ + ty@),
        ],
        Decl::ConstDecl { name, ty, init } => seq![
            spec_line(depth, "Const: "@ + name@ + " : "@ + ty@ + " = "@ + init@),
        ],
        Decl::StaticDecl { name, ty } => seq![
            spec_line(depth, "Static: "@ + name@ + " : "@ + ty@),
        ],
        Decl::TraitDecl { name, item_count } => seq![
            spec_line(depth, "Trait: "@ + name@),
            spec_line(depth, "  └─ Items: "@ + spec_decimal(item_count as nat)),
        ],
        Decl::OtherDecl { kind } => seq![spec_line(depth, "Other: "@ + kind@)],
    }
}

/// The ordered lines describing a declaration sequence rendered at the
/// given depth: the lines of each declaration, in sequence order.
pub open spec fn spec_render_seq(s: Seq<Decl>, depth: nat) -> Seq<Seq<char>>
    decreases s,
{
    if s.len() == 0 {
        Seq::empty()
    } else {
        spec_render_seq(s.drop_last(), depth) + spec_render_decl(s.last(), depth)
    }
}

/// Whether every indentation depth reached while rendering `d` at `depth`
/// fits a `usize`: the machine-size bound under which the executable
/// renderer works.
pub open spec fn spec_fits_decl(d: Decl, depth: nat) -> bool
    decreases d,
{
    match d {
        Decl::ModuleDecl { name, items } => match items {
            Some(children) => depth + 2 <= usize::MAX && spec_fits_seq(children@, depth + 2),
            None => true,
        },
        _ => true,
    }
}

/// Whether rendering each declaration of `s` at `depth` stays within the
/// machine-size depth bound.
pub open spec fn spec_fits_seq(s: Seq<Decl>, depth: nat) -> bool
    decreases s,
{
    forall|i: int| 0 <= i < s.len() ==> spec_fits_decl(#[trigger] s[i], depth)
}

/// The views of a sequence of built lines.
pub open spec fn lines_of(v: Seq<String>) -> Seq<Seq<char>> {
    Seq::new(v.len(), |i: int| v[i]@)
}

/// The indentation prefix as a string.
pub fn indent_string(depth: usize) -> (s: String)
    ensures
        s@ == spec_indent(depth as nat),
{
    let mut s = String::new();
    proof {
        assert(s@ =~= spec_indent(0));
    }
    for i in 0..depth
        invariant
            s@ == spec_indent(i as nat),
    {
        s.append("  ");
        proof {
            reveal_strlit("  ");
            assert(s@ =~= spec_indent((i + 1) as nat));
        }
    }
    s
}

/// Whether rendering `d` at `depth` stays within the machine-size depth
/// bound.
pub fn depth_fits_decl(d: &Decl, depth: usize) -> (b: bool)
    ensures
        b == spec_fits_decl(*d, depth as nat),
    decreases *d,
{
    match d {
        Decl::ModuleDecl { name: _, items: Some(children) } => {
            if depth <= usize::MAX - 2 {
                depth_fits_seq(children, depth + 2)
            } else {
                false
            }
        },
        _ => true,
    }
}

/// Whether rendering each declaration of `decls` at `depth` stays within
/// the machine-size depth bound.
pub fn depth_fits_seq(decls: &Vec<Decl>, depth: usize) -> (b: bool)
    ensures
        b == spec_fits_seq(decls@, depth as nat),
    decreases decls@,
{
    let mut i: usize = 0;
    while i < decls.len()
        invariant
            0 <= i <= decls.len(),
            forall|j: int| 0 <= j < i ==> spec_fits_decl(#[trigger] decls@[j], depth as nat),
        decreases decls.len() - i,
    {
        if !depth_fits_decl(&decls[i], depth) {
            return false;
        }
        i += 1;
    }
    true
}

/// Appends one built line to the output, with its effect stated over the
/// line views.
fn push_line(out: &mut Vec<String>, line: String)
    ensures
        lines_of(final(out)@) == lines_of(old(out)@).push(line@),
{
    out.push(line);
    proof {
        assert(lines_of(out@) =~= lines_of(old(out)@).push(out@.last()@));
    }
}

/// Appends the sub-line of an attribute that is rendered only when
/// present: nothing when the attribute is absent.
fn push_opt_line(depth: usize, label: &str, v: &Option<String>, out: &mut Vec<String>)
    ensures
        lines_of(final(out)@) == lines_of(old(out)@) + spec_opt_line(depth as nat, label@, *v),
{
    match v {
        Some(t) => {
            let mut line = indent_string(depth);
            line.append(label);
            line.append(t.as_str());
            push_line(out, line);
            proof {
                assert(lines_of(out@) =~~= lines_of(old(out)@) + spec_opt_line(
                    depth as nat,
                    label@,
                    *v,
                ));
            }
        },
        None => {
            proof {
                assert(lines_of(out@) =~= lines_of(old(out)@) + spec_opt_line(
                    depth as nat,
                    label@,
                    *v,
                ));
            }
        },
    }
}

/// Appends the sub-lines for a function's parameters, in order.
fn push_param_lines(params: &Vec<Parameter>, depth: usize, out: &mut Vec<String>)
    ensures
        lines_of(final(out)@) == lines_of(old(out)@) + spec_param_lines(params@, depth as nat),
{
    let ghost pl = spec_param_lines(params@, depth as nat);
    for i in 0..params.len()
        invariant
            pl == spec_param_lines(params@, depth as nat),
            lines_of(out@) == lines_of(old(out)@) + pl.take(i as int),
    {
        let mut line = indent_string(depth);
        line.append("    └─ [");
        push_decimal(&mut line, i);
        match &params[i] {
            Parameter::Receiver => {
                line.append("] self");
            },
            Parameter::Typed { pattern, ty } => {
                line.append("] ");
                line.append(pattern.as_str());
                line.append(" : ");
                line.append(ty.as_str());
            },
        }
        proof {
            assert(line@ =~= spec_param_line(params@[i as int], i as nat, depth as nat));
        }
        push_line(out, line);
        proof {
            assert(pl.take(i + 1) =~= pl.take(i as int).push(pl[i as int]));
            assert(lines_of(out@) =~= lines_of(old(out)@) + pl.take(i + 1));
        }
    }
    proof {
        assert(pl.take(params@.len() as int) =~= pl);
    }
}

/// Appends the sub-lines for a record's named fields, in order.
fn push_named_field_lines(fs: &Vec<FieldDef>, depth: usize, out: &mut Vec<String>)
    ensures
        lines_of(final(out)@) == lines_of(old(out)@) + spec_named_field_lines(
            fs@,
            depth as nat,
        ),
{
    let ghost fl = spec_named_field_lines(fs@, depth as nat);
    for i in 0..fs.len()
        invariant
            fl == spec_named_field_lines(fs@, depth as nat),
            lines_of(out@) == lines_of(old(out)@) + fl.take(i as int),
    {
        let mut line = indent_string(depth);
        line.append("    └─ ");
        line.append(fs[i].name.as_str());
        line.append(" : ");
        line.append(fs[i].ty.as_str());
        proof {
            assert(line@ =~= fl[i as int]);
        }
        push_line(out, line);
        proof {
            assert(fl.take(i + 1) =~= fl.take(i as int).push(fl[i as int]));
            assert(lines_of(out@) =~= lines_of(old(out)@) + fl.take(i + 1));
        }
    }
    proof {
        assert(fl.take(fs@.len() as int) =~= fl);
    }
}

/// Appends the sub-lines for a record's unnamed fields, positionally
/// indexed, in order.
fn push_unnamed_field_lines(ts: &Vec<String>, depth: usize, out: &mut Vec<String>)
    ensures
        lines_of(final(out)@) == lines_of(old(out)@) + spec_unnamed_field_lines(
            ts@,
            depth as nat,
        ),
{
    let ghost fl = spec_unnamed_field_lines(ts@, depth as nat);
    for i in 0..ts.len()
        invariant
            fl == spec_unnamed_field_lines(ts@, depth as nat),
            lines_of(out@) == lines_of(old(out)@) + fl.take(i as int),
    {
        let mut line = indent_string(depth);
        line.append("    └─ [");
        push_decimal(&mut line, i);
        line.append("] : ");
        line.append(ts[i].as_str());
        proof {
            assert(line@ =~= fl[i as int]);
        }
        push_line(out, line);
        proof {
            assert(fl.take(i + 1) =~= fl.take(i as int).push(fl[i as int]));
            assert(lines_of(out@) =~= lines_of(old(out)@) + fl.take(i + 1));
        }
    }
    proof {
        assert(fl.take(ts@.len() as int) =~= fl);
    }
}

/// Appends the sub-lines for an enumeration's variants, in order.
fn push_variant_lines(vs: &Vec<VariantInfo>, depth: usize, out: &mut Vec<String>)
    ensures
        lines_of(final(out)@) == lines_of(old(out)@) + spec_variant_lines(vs@, depth as nat),
{
    let ghost vl = spec_variant_lines(vs@, depth as nat);
    for i in 0..vs.len()
        invariant
            vl == spec_variant_lines(vs@, depth as nat),
            lines_of(out@) == lines_of(old(out)@) + vl.take(i as int),
    {
        let mut line = indent_string(depth);
        line.append("    └─ ");
        line.append(vs[i].name.as_str());
        match &vs[i].shape {
            FieldsShape::Named => {
                line.append(" { ... }");
            },
            FieldsShape::Unnamed => {
                line.append("(...)");
            },
            FieldsShape::Unit => {},
        }
        proof {
            assert(line@ =~= spec_variant_line(vs@[i as int], depth as nat));
        }
        push_line(out, line);
        proof {
            assert(vl.take(i + 1) =~= vl.take(i as int).push(vl[i as int]));
            assert(lines_of(out@) =~= lines_of(old(out)@) + vl.take(i + 1));
        }
    }
    proof {
        assert(vl.take(vs@.len() as int) =~= vl);
    }
}

/// Appends to `out` the lines describing `d` rendered at `depth`.
fn render_decl_into(d: &Decl, depth: usize, out: &mut Vec<String>)
    requires
        spec_fits_decl(*d, depth as nat),
    ensures
        lines_of(final(out)@) == lines_of(old(out)@) + spec_render_decl(*d, depth as nat),
    decreases *d,
{
    match d {
        Decl::FunctionDecl { name, params, ret, generics } => {
            let mut line = indent_string(depth);
            line.append("Function: ");
            line.append(name.as_str());
            push_line(out, line);
            let mut line = indent_string(depth);
            line.append("  └─ Inputs: ");
            push_decimal(&mut line, params.len());
            push_line(out, line);
            push_param_lines(params, depth, out);
            push_opt_line(depth, "  └─ Output: ", ret, out);
            push_opt_line(depth, "  └─ Generics: ", generics, out);
            proof {
                assert(lines_of(out@) =~~= lines_of(old(out)@) + spec_render_decl(
                    *d,
                    depth as nat,
                ));
            }
        },
        Decl::RecordDecl { name, generics, fields } => {
            let mut line = indent_string(depth);
            line.append("Struct: ");
            line.append(name.as_str());
            push_line(out, line);
            push_opt_line(depth, "  └─ Generics: ", generics, out);
            match fields {
                Fields::Named(fs) => {
                    let mut line = indent_string(depth);
                    line.append("  └─ Named Fields:");
                    push_line(out, line);
                    push_named_field_lines(fs, depth, out);
                },
                Fields::Unnamed(ts) => {
                    let mut line = indent_string(depth);
                    line.append("  └─ Tuple Fields:");
                    push_line(out, line);
                    push_unnamed_field_lines(ts, depth, out);
                },
                Fields::Unit => {
                    let mut line = indent_string(depth);
                    line.append("  └─ Unit Struct");
                    push_line(out, line);
                },
            }
            proof {
                assert(lines_of(out@) =~~= lines_of(old(out)@) + spec_render_decl(
                    *d,
                    depth as nat,
                ));
            }
        },
        Decl::EnumDecl { name, generics, variants } => {
            let mut line = indent_string(depth);
            line.append("Enum: ");
            line.append(name.as_str());
            push_line(out, line);
            push_opt_line(depth, "  └─ Generics: ", generics, out);
            let mut line = indent_string(depth);
            line.append("  └─ Variants:");
            push_line(out, line);
            push_variant_lines(variants, depth, out);
            proof {
                assert(lines_of(out@) =~~= lines_of(old(out)@) + spec_render_decl(
                    *d,
                    depth as nat,
                ));
            }
        },
        Decl::ImplBlock { self_ty, trait_ref, item_count } => {
            let mut line = indent_string(depth);
            line.append("Impl: ");
            line.append(self_ty.as_str());
            push_line(out, line);
            push_opt_line(depth, "  └─ Trait: ", trait_ref, out);
            let mut line = indent_string(depth);
            line.append("  └─ Items: ");
            push_decimal(&mut line, *item_count);
            push_line(out, line);
            proof {
                assert(lines_of(out@) =~~= lines_of(old(out)@) + spec_render_decl(
                    *d,
                    depth as nat,
                ));
            }
        },
        Decl::ModuleDecl { name, items } => {
            let mut line = indent_string(depth);
            line.append("Module: ");
            line.append(name.as_str());
            push_line(out, line);
            if let Some(children) = items {
                let mut line = indent_string(depth);
                line.append("  └─ Items: ");
                push_decimal(&mut line, children.len());
                push_line(out, line);
                render_seq_into(children, depth + 2, out);
            }
            proof {
                assert(lines_of(out@) =~~= lines_of(old(out)@) + spec_render_decl(
                    *d,
                    depth as nat,
                ));
            }
        },
        Decl::UseDecl { tree } => {
            let mut line = indent_string(depth);
            line.append("Use: ");
            line.append(tree.as_str());
            push_line(out, line);
            proof {
                assert(lines_of(out@) =~~= lines_of(old(out)@) + spec_render_decl(
                    *d,
                    depth as nat,
                ));
            }
        },
        Decl::TypeAliasDecl { name, ty } => {
            let mut line = indent_string(depth);
            line.append("Type Alias: ");
            line.append(name.as_str());
            line.append(" = ");
            line.append(ty.as_str());
            push_line(out, line);
            proof {
                assert(lines_of(out@) =~~= lines_of(old(out)@) + spec_render_decl(
                    *d,
                    depth as nat,
                ));
            }
        },
        Decl::ConstDecl { name, ty, init } => {
            let mut line = indent_string(depth);
            line.append("Const: ");
            line.append(name.as_str());
            line.append(" : ");
            line.append(ty.as_str());
            line.append(" = ");
            line.append(init.as_str());
            push_line(out, line);
            proof {
                assert(lines_of(out@) =~~= lines_of(old(out)@) + spec_render_decl(
                    *d,
                    depth as nat,
                ));
            }
        },
        Decl::StaticDecl { name, ty } => {
            let mut line = indent_string(depth);
            line.append("Static: ");
            line.append(name.as_str());
            line.append(" : ");
            line.append(ty.as_str());
            push_line(out, line);
            proof {
                assert(lines_of(out@) =~~= lines_of(old(out)@) + spec_render_decl(
                    *d,
                    depth as nat,
                ));
            }
        },
        Decl::TraitDecl { name, item_count } => {
            let mut line = indent_string(depth);
            line.append("Trait: ");
            line.append(name.as_str());
            push_line(out, line);
            let mut line = indent_string(depth);
            line.append("  └─ Items: ");
            push_decimal(&mut line, *item_count);
            push_line(out, line);
            proof {
                assert(lines_of(out@) =~~= lines_of(old(out)@) + spec_render_decl(
                    *d,
                    depth as nat,
                ));
            }
        },
        Decl::OtherDecl { kind } => {
            let mut line = indent_string(depth);
            line.append("Other: ");
            line.append(kind.as_str());
            push_line(out, line);
            proof {
                assert(lines_of(out@) =~~= lines_of(old(out)@) + spec_render_decl(
                    *d,
                    depth as nat,
                ));
            }
        },
    }
}

/// Appends to `out` the lines describing each declaration of `decls`, in
/// sequence order, rendered at `depth`.
fn render_seq_into(decls: &Vec<Decl>, depth: usize, out: &mut Vec<String>)
    requires
        spec_fits_seq(decls@, depth as nat),
    ensures
        lines_of(final(out)@) == lines_of(old(out)@) + spec_render_seq(decls@, depth as nat),
    decreases decls@,
{
    let ghost base = lines_of(out@);
    for i in 0..decls.len()
        invariant
            spec_fits_seq(decls@, depth as nat),
            lines_of(out@) == base + spec_render_seq(decls@.take(i as int), depth as nat),
    {
        render_decl_into(&decls[i], depth, out);
        proof {
            lemma_render_seq_snoc(decls@, i as int, depth as nat);
            assert(lines_of(out@) =~= base + spec_render_seq(
                decls@.take(i + 1),
                depth as nat,
            ));
        }
    }
    proof {
        assert(decls@.take(decls@.len() as int) =~= decls@);
    }
}

/// Rendering one more declaration extends the rendering of the prefix by
/// exactly that declaration's lines.
proof fn lemma_render_seq_snoc(s: Seq<Decl>, i: int, depth: nat)
    requires
        0 <= i < s.len(),
    ensures
        spec_render_seq(s.take(i + 1), depth) == spec_render_seq(s.take(i), depth)
            + spec_render_decl(s[i], depth),
{
    assert(s.take(i + 1).drop_last() =~= s.take(i));
    assert(s.take(i + 1).last() == s[i]);
}

/// Renders a declaration sequence at the given starting depth: for each
/// declaration in order, its lines per kind, recursing into module bodies
/// two depth units deeper.
pub fn render(decls: &Vec<Decl>, depth: usize) -> (lines: Vec<String>)
    requires
        spec_fits_seq(decls@, depth as nat),
    ensures
        lines_of(lines@) == spec_render_seq(decls@, depth as nat),
{
    let mut out: Vec<String> = Vec::new();
    proof {
        assert(lines_of(out@) =~= Seq::<Seq<char>>::empty());
    }
    render_seq_into(decls, depth, &mut out);
    proof {
        assert(Seq::<Seq<char>>::empty() + spec_render_seq(decls@, depth as nat)
            =~= spec_render_seq(decls@, depth as nat));
    }
    out
}

/// Renders one declaration at the given depth.
pub fn render_decl(d: &Decl, depth: usize) -> (lines: Vec<String>)
    requires
        spec_fits_decl(*d, depth as nat),
    ensures
        lines_of(lines@) == spec_render_decl(*d, depth as nat),
{
    let mut out: Vec<String> = Vec::new();
    proof {
        assert(lines_of(out@) =~= Seq::<Seq<char>>::empty());
    }
    render_decl_into(d, depth, &mut out);
    proof {
        assert(Seq::<Seq<char>>::empty() + spec_render_decl(*d, depth as nat)
            =~= spec_render_decl(*d, depth as nat));
    }
    out
}

/// Renders a declaration sequence after checking the machine-size depth
/// bound, declining safely — instead of overflowing the depth counter —
/// on pathologically deep module nesting.
pub fn try_render(decls: &Vec<Decl>, depth: usize) -> (r: Option<Vec<String>>)
    ensures
        r is Some <==> spec_fits_seq(decls@, depth as nat),
        r matches Some(lines) ==> lines_of(lines@) == spec_render_seq(decls@, depth as nat),
{
    if depth_fits_seq(decls, depth) {
        Some(render(decls, depth))
    } else {
        None
    }
}

} // verus!
