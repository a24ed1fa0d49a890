//! General properties of the renderer, each stated and proved once over the
//! mathematical rendering functions `spec_render_decl` / `spec_render_seq`.

use vstd::prelude::*;

use crate::decl::Decl;
use crate::decl::FieldDef;
use crate::decl::Fields;
use crate::decl::Parameter;
use crate::numeral::spec_decimal;
use crate::render::spec_line;
use crate::render::spec_opt_line;
use crate::render::spec_param_lines;
use crate::render::spec_render_decl;
use crate::render::spec_render_seq;

verus! {

/// Totality: rendering never omits a declaration — every declaration of
/// every kind produces at least one output line, its header.
pub proof fn lemma_totality(d: Decl, depth: nat)
    ensures
        spec_render_decl(d, depth).len() >= 1,
{
}

/// Totality over sequences: rendering a declaration sequence yields at
/// least one line per declaration, so no declaration is silently dropped.
pub proof fn lemma_totality_seq(s: Seq<Decl>, depth: nat)
    ensures
        spec_render_seq(s, depth).len() >= s.len(),
    decreases s,
{
    if s.len() > 0 {
        lemma_totality_seq(s.drop_last(), depth);
        lemma_totality(s.last(), depth);
    }
}

/// Determinism: rendering is a function of the declaration sequence and
/// depth alone, so rendering the same sequence twice produces identical
/// output.
pub proof fn lemma_render_deterministic(a: Seq<Decl>, b: Seq<Decl>, depth: nat)
    requires
        a == b,
    ensures
        spec_render_seq(a, depth) == spec_render_seq(b, depth),
{
}

/// Order preservation: the lines of a concatenation of declaration
/// sequences are the lines of the first followed by the lines of the
/// second, so output line groups appear in the order of the input
/// declarations.
pub proof fn lemma_order_preservation(a: Seq<Decl>, b: Seq<Decl>, depth: nat)
    ensures
        spec_render_seq(a + b, depth) == spec_render_seq(a, depth) + spec_render_seq(b, depth),
    decreases b.len(),
{
    if b.len() == 0 {
        assert(a + b =~= a);
        assert(spec_render_seq(a, depth) + spec_render_seq(b, depth) =~= spec_render_seq(
            a,
            depth,
        ));
    } else {
        lemma_order_preservation(a, b.drop_last(), depth);
        assert((a + b).drop_last() =~= a + b.drop_last());
        assert((a + b).last() == b.last());
        assert(spec_render_seq(a + b, depth) =~= spec_render_seq(a, depth) + spec_render_seq(
            b,
            depth,
        ));
    }
}

/// Order preservation inside a module: the lines of a module's children,
/// rendered two depth units deeper, follow immediately after the module's
/// own header and item-count lines, before any following sibling.
pub proof fn lemma_module_children_follow(name: String, children: Vec<Decl>, depth: nat)
    ensures
        spec_render_decl(Decl::ModuleDecl { name, items: Some(children) }, depth) == seq![
            spec_line(depth, "Module: "@ + name@),
            spec_line(depth, "  └─ Items: "@ + spec_decimal(children@.len())),
        ] + spec_render_seq(children@, depth + 2),
{
}

/// Whether a line carries at least `n` leading spaces.
pub open spec fn spec_space_prefixed(l: Seq<char>, n: nat) -> bool {
    l.len() >= n && forall|k: int| 0 <= k < n ==> l[k] == ' '
}

/// Depth monotonicity, for one declaration: every line of a declaration
/// rendered at a given depth carries at least twice that depth in leading
/// spaces, and its header line carries exactly that many — the character
/// right after the indentation exists and is not a space.
pub proof fn lemma_depth_indentation(d: Decl, depth: nat)
    ensures
        forall|j: int|
            0 <= j < spec_render_decl(d, depth).len() ==> spec_space_prefixed(
                #[trigger] spec_render_decl(d, depth)[j],
                2 * depth,
            ),
        spec_render_decl(d, depth)[0].len() > 2 * depth,
        spec_render_decl(d, depth)[0][2 * depth as int] != ' ',
    decreases d,
{
    reveal_strlit("Function: ");
    reveal_strlit("Struct: ");
    reveal_strlit("Enum: ");
    reveal_strlit("Impl: ");
    reveal_strlit("Module: ");
    reveal_strlit("Use: ");
    reveal_strlit("Type Alias: ");
    reveal_strlit("Const: ");
    reveal_strlit("Static: ");
    reveal_strlit("Trait: ");
    reveal_strlit("Other: ");
    match d {
        Decl::FunctionDecl { name, params, ret, generics } => {
            let lines = spec_render_decl(d, depth);
            let pl = spec_param_lines(params@, depth);
            let ol = spec_opt_line(depth, "  └─ Output: "@, ret);
            let gl = spec_opt_line(depth, "  └─ Generics: "@, generics);
            assert forall|j: int| 0 <= j < lines.len() implies spec_space_prefixed(
                lines[j],
                2 * depth,
            ) by {
                if 2 <= j < 2 + pl.len() {
                    assert(lines[j] == pl[j - 2]);
                } else if 2 + pl.len() <= j < 2 + pl.len() + ol.len() {
                    assert(lines[j] == ol[j - 2 - pl.len()]);
                } else if 2 + pl.len() + ol.len() <= j {
                    assert(lines[j] == gl[j - 2 - pl.len() - ol.len()]);
                }
            }
        },
        Decl::RecordDecl { name, generics, fields } => {
            let lines = spec_render_decl(d, depth);
            let gl = spec_opt_line(depth, "  └─ Generics: "@, generics);
            let fl = crate::render::spec_fields_lines(fields, depth);
            assert forall|j: int| 0 <= j < lines.len() implies spec_space_prefixed(
                lines[j],
                2 * depth,
            ) by {
                if 1 <= j < 1 + gl.len() {
                    assert(lines[j] == gl[j - 1]);
                } else if 1 + gl.len() <= j {
                    assert(lines[j] == fl[j - 1 - gl.len()]);
                }
            }
        },
        Decl::EnumDecl { name, generics, variants } => {
            let lines = spec_render_decl(d, depth);
            let gl = spec_opt_line(depth, "  └─ Generics: "@, generics);
            let vl = crate::render::spec_variant_lines(variants@, depth);
            assert forall|j: int| 0 <= j < lines.len() implies spec_space_prefixed(
                lines[j],
                2 * depth,
            ) by {
                if 1 <= j < 1 + gl.len() {
                    assert(lines[j] == gl[j - 1]);
                } else if 2 + gl.len() <= j {
                    assert(lines[j] == vl[j - 2 - gl.len()]);
                }
            }
        },
        Decl::ImplBlock { self_ty, trait_ref, item_count } => {
            let lines = spec_render_decl(d, depth);
            let tl = spec_opt_line(depth, "  └─ Trait: "@, trait_ref);
            assert forall|j: int| 0 <= j < lines.len() implies spec_space_prefixed(
                lines[j],
                2 * depth,
            ) by {
                if 1 <= j < 1 + tl.len() {
                    assert(lines[j] == tl[j - 1]);
                }
            }
        },
        Decl::ModuleDecl { name, items } => {
            match items {
                Some(children) => {
                    lemma_depth_indentation_seq(children@, depth + 2);
                    let lines = spec_render_decl(d, depth);
                    let cl = spec_render_seq(children@, depth + 2);
                    assert forall|j: int| 0 <= j < lines.len() implies spec_space_prefixed(
                        lines[j],
                        2 * depth,
                    ) by {
                        if 2 <= j {
                            assert(lines[j] == cl[j - 2]);
                            assert(spec_space_prefixed(cl[j - 2], 2 * (depth + 2)));
                        }
                    }
                },
                None => {},
            }
        },
        _ => {},
    }
}

/// Depth monotonicity, for a declaration sequence: every line of the
/// rendering of a sequence at a given depth carries at least twice that
/// depth in leading spaces.
pub proof fn lemma_depth_indentation_seq(s: Seq<Decl>, depth: nat)
    ensures
        forall|j: int|
            0 <= j < spec_render_seq(s, depth).len() ==> spec_space_prefixed(
                #[trigger] spec_render_seq(s, depth)[j],
                2 * depth,
            ),
    decreases s,
{
    if s.len() > 0 {
        lemma_depth_indentation_seq(s.drop_last(), depth);
        lemma_depth_indentation(s.last(), depth);
        let a = spec_render_seq(s.drop_last(), depth);
        let b = spec_render_decl(s.last(), depth);
        assert forall|j: int| 0 <= j < spec_render_seq(s, depth).len() implies spec_space_prefixed(
            spec_render_seq(s, depth)[j],
            2 * depth,
        ) by {
            if j < a.len() {
                assert(spec_render_seq(s, depth)[j] == a[j]);
            } else {
                assert(spec_render_seq(s, depth)[j] == b[j - a.len()]);
            }
        }
    }
}

/// Empty-collection non-omission, for functions: a function with zero
/// parameters still gets its parameter-count line, reading `Inputs: 0`,
/// directly under its header.
pub proof fn lemma_zero_inputs_line(
    name: String,
    params: Vec<Parameter>,
    ret: Option<String>,
    generics: Option<String>,
    depth: nat,
)
    requires
        params@.len() == 0,
    ensures
        spec_render_decl(Decl::FunctionDecl { name, params, ret, generics }, depth).len() >= 2,
        spec_render_decl(Decl::FunctionDecl { name, params, ret, generics }, depth)[1]
            == spec_line(depth, "  └─ Inputs: 0"@),
{
    reveal_strlit("  └─ Inputs: ");
    reveal_strlit("  └─ Inputs: 0");
    assert("  └─ Inputs: "@ + spec_decimal(0) =~= "  └─ Inputs: 0"@);
}

/// Empty-collection non-omission, for records: a record with the
/// named-fields shape still gets its `Named Fields:` marker line, even
/// when the field list is empty.
pub proof fn lemma_named_fields_marker(
    name: String,
    generics: Option<String>,
    fs: Vec<FieldDef>,
    depth: nat,
)
    ensures
        ({
            let lines = spec_render_decl(
                Decl::RecordDecl { name, generics, fields: Fields::Named(fs) },
                depth,
            );
            let idx: int = if generics is Some {
                2
            } else {
                1
            };
            lines.len() >= idx + 1 && lines[idx] == spec_line(depth, "  └─ Named Fields:"@)
        }),
{
}

} // verus!
