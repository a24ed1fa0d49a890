use ast_outline::decl::Decl;
use ast_outline::decl::FieldDef;
use ast_outline::decl::Fields;
use ast_outline::decl::FieldsShape;
use ast_outline::decl::Parameter;
use ast_outline::decl::VariantInfo;
use ast_outline::render::depth_fits_seq;
use ast_outline::render::render;
use ast_outline::render::render_decl;
use ast_outline::render::try_render;

fn s(x: &str) -> String {
    x.to_string()
}

fn plain_fn(name: &str) -> Decl {
    Decl::FunctionDecl { name: s(name), params: vec![], ret: None, generics: None }
}

#[test]
fn scenario_single_function() {
    let decls = vec![plain_fn("main")];
    let lines = render(&decls, 0);
    assert_eq!(lines, vec![s("Function: main"), s("  └─ Inputs: 0")]);
}

#[test]
fn scenario_named_record() {
    let decls = vec![Decl::RecordDecl {
        name: s("Person"),
        generics: None,
        fields: Fields::Named(vec![
            FieldDef { name: s("name"), ty: s("String") },
            FieldDef { name: s("age"), ty: s("u32") },
        ]),
    }];
    let lines = render(&decls, 0);
    assert_eq!(
        lines,
        vec![
            s("Struct: Person"),
            s("  └─ Named Fields:"),
            s("    └─ name : String"),
            s("    └─ age : u32"),
        ]
    );
}

#[test]
fn scenario_nested_module() {
    let helper = Decl::FunctionDecl {
        name: s("helper"),
        params: vec![Parameter::Typed { pattern: s("x"), ty: s("i32") }],
        ret: None,
        generics: None,
    };
    let decls = vec![Decl::ModuleDecl { name: s("utils"), items: Some(vec![helper]) }];
    let lines = render(&decls, 0);
    assert_eq!(
        lines,
        vec![
            s("Module: utils"),
            s("  └─ Items: 1"),
            s("    Function: helper"),
            s("      └─ Inputs: 1"),
            s("        └─ [0] x : i32"),
        ]
    );
}

#[test]
fn scenario_enum_variants() {
    let decls = vec![Decl::EnumDecl {
        name: s("Shape"),
        generics: None,
        variants: vec![
            VariantInfo { name: s("Circle"), shape: FieldsShape::Unnamed },
            VariantInfo { name: s("Square"), shape: FieldsShape::Named },
        ],
    }];
    let lines = render(&decls, 0);
    assert_eq!(
        lines,
        vec![
            s("Enum: Shape"),
            s("  └─ Variants:"),
            s("    └─ Circle(...)"),
            s("    └─ Square { ... }"),
        ]
    );
}

#[test]
fn scenario_unit_struct() {
    let decls = vec![Decl::RecordDecl { name: s("Marker"), generics: None, fields: Fields::Unit }];
    let lines = render(&decls, 0);
    assert_eq!(lines, vec![s("Struct: Marker"), s("  └─ Unit Struct")]);
}

#[test]
fn function_with_everything() {
    let decls = vec![Decl::FunctionDecl {
        name: s("combine"),
        params: vec![
            Parameter::Receiver,
            Parameter::Typed { pattern: s("other"), ty: s("& Self") },
            Parameter::Typed { pattern: s("weight"), ty: s("f64") },
        ],
        ret: Some(s("Self")),
        generics: Some(s("< T : Clone >")),
    }];
    let lines = render(&decls, 0);
    assert_eq!(
        lines,
        vec![
            s("Function: combine"),
            s("  └─ Inputs: 3"),
            s("    └─ [0] self"),
            s("    └─ [1] other : & Self"),
            s("    └─ [2] weight : f64"),
            s("  └─ Output: Self"),
            s("  └─ Generics: < T : Clone >"),
        ]
    );
}

#[test]
fn tuple_struct_fields_are_indexed() {
    let decls = vec![Decl::RecordDecl {
        name: s("Pair"),
        generics: Some(s("< A , B >")),
        fields: Fields::Unnamed(vec![s("A"), s("B")]),
    }];
    let lines = render(&decls, 0);
    assert_eq!(
        lines,
        vec![
            s("Struct: Pair"),
            s("  └─ Generics: < A , B >"),
            s("  └─ Tuple Fields:"),
            s("    └─ [0] : A"),
            s("    └─ [1] : B"),
        ]
    );
}

#[test]
fn impl_block_with_and_without_trait() {
    let with_trait = vec![Decl::ImplBlock {
        self_ty: s("Person"),
        trait_ref: Some(s("Display")),
        item_count: 3,
    }];
    assert_eq!(
        render(&with_trait, 0),
        vec![s("Impl: Person"), s("  └─ Trait: Display"), s("  └─ Items: 3")]
    );
    let inherent = vec![Decl::ImplBlock { self_ty: s("Person"), trait_ref: None, item_count: 0 }];
    assert_eq!(render(&inherent, 0), vec![s("Impl: Person"), s("  └─ Items: 0")]);
}

#[test]
fn single_line_kinds() {
    let decls = vec![
        Decl::UseDecl { tree: s("std :: fmt :: Display") },
        Decl::TypeAliasDecl { name: s("Meters"), ty: s("f64") },
        Decl::ConstDecl { name: s("LIMIT"), ty: s("usize"), init: s("64") },
        Decl::StaticDecl { name: s("TABLE"), ty: s("[u8 ; 256]") },
        Decl::OtherDecl { kind: s("Discriminant(13)") },
    ];
    let lines = render(&decls, 0);
    assert_eq!(
        lines,
        vec![
            s("Use: std :: fmt :: Display"),
            s("Type Alias: Meters = f64"),
            s("Const: LIMIT : usize = 64"),
            s("Static: TABLE : [u8 ; 256]"),
            s("Other: Discriminant(13)"),
        ]
    );
}

#[test]
fn trait_decl_lines() {
    let decls = vec![Decl::TraitDecl { name: s("Speak"), item_count: 2 }];
    assert_eq!(render(&decls, 0), vec![s("Trait: Speak"), s("  └─ Items: 2")]);
}

#[test]
fn every_kind_yields_at_least_one_line() {
    let kinds = vec![
        plain_fn("f"),
        Decl::RecordDecl { name: s("R"), generics: None, fields: Fields::Unit },
        Decl::EnumDecl { name: s("E"), generics: None, variants: vec![] },
        Decl::ImplBlock { self_ty: s("R"), trait_ref: None, item_count: 0 },
        Decl::ModuleDecl { name: s("m"), items: None },
        Decl::UseDecl { tree: s("std") },
        Decl::TypeAliasDecl { name: s("T"), ty: s("u8") },
        Decl::ConstDecl { name: s("C"), ty: s("u8"), init: s("0") },
        Decl::StaticDecl { name: s("S"), ty: s("u8") },
        Decl::TraitDecl { name: s("Tr"), item_count: 0 },
        Decl::OtherDecl { kind: s("Discriminant(9)") },
    ];
    for kind in kinds {
        let lines = render_decl(&kind, 0);
        assert!(lines.len() >= 1);
    }
}

#[test]
fn rendering_twice_is_identical() {
    let decls = vec![
        Decl::ModuleDecl {
            name: s("outer"),
            items: Some(vec![
                plain_fn("inner_fn"),
                Decl::ModuleDecl { name: s("inner"), items: Some(vec![plain_fn("leaf")]) },
            ]),
        },
        Decl::UseDecl { tree: s("std :: mem") },
    ];
    let first = render(&decls, 0);
    let second = render(&decls, 0);
    assert_eq!(first, second);
}

#[test]
fn groups_appear_in_input_order() {
    fn second() -> Decl {
        Decl::RecordDecl { name: s("Second"), generics: None, fields: Fields::Unit }
    }
    fn third() -> Decl {
        Decl::UseDecl { tree: s("third") }
    }
    let together = render(&vec![plain_fn("first"), second(), third()], 0);
    let mut expected = render(&vec![plain_fn("first")], 0);
    expected.extend(render(&vec![second()], 0));
    expected.extend(render(&vec![third()], 0));
    assert_eq!(together, expected);
}

#[test]
fn module_children_come_before_next_sibling() {
    let decls = vec![
        Decl::ModuleDecl { name: s("first"), items: Some(vec![plain_fn("child")]) },
        plain_fn("second"),
    ];
    let lines = render(&decls, 0);
    assert_eq!(
        lines,
        vec![
            s("Module: first"),
            s("  └─ Items: 1"),
            s("    Function: child"),
            s("      └─ Inputs: 0"),
            s("Function: second"),
            s("  └─ Inputs: 0"),
        ]
    );
}

#[test]
fn module_without_body_is_a_leaf() {
    let decls = vec![Decl::ModuleDecl { name: s("elsewhere"), items: None }];
    assert_eq!(render(&decls, 0), vec![s("Module: elsewhere")]);
}

#[test]
fn empty_module_body_still_counts() {
    let decls = vec![Decl::ModuleDecl { name: s("empty"), items: Some(vec![]) }];
    assert_eq!(render(&decls, 0), vec![s("Module: empty"), s("  └─ Items: 0")]);
}

#[test]
fn empty_named_fields_keep_marker() {
    let decls = vec![Decl::RecordDecl {
        name: s("Bare"),
        generics: None,
        fields: Fields::Named(vec![]),
    }];
    assert_eq!(render(&decls, 0), vec![s("Struct: Bare"), s("  └─ Named Fields:")]);
}

#[test]
fn empty_enum_keeps_variants_marker() {
    let decls = vec![Decl::EnumDecl { name: s("Never"), generics: None, variants: vec![] }];
    assert_eq!(render(&decls, 0), vec![s("Enum: Never"), s("  └─ Variants:")]);
}

#[test]
fn empty_input_renders_nothing() {
    let decls: Vec<Decl> = vec![];
    assert_eq!(render(&decls, 0), Vec::<String>::new());
}

#[test]
fn depth_deepens_by_two_units_per_module() {
    let decls = vec![Decl::ModuleDecl {
        name: s("a"),
        items: Some(vec![Decl::ModuleDecl { name: s("b"), items: Some(vec![plain_fn("f")]) }]),
    }];
    let lines = render(&decls, 0);
    assert_eq!(
        lines,
        vec![
            s("Module: a"),
            s("  └─ Items: 1"),
            s("    Module: b"),
            s("      └─ Items: 1"),
            s("        Function: f"),
            s("          └─ Inputs: 0"),
        ]
    );
}

#[test]
fn starting_depth_indents_headers() {
    let decls = vec![plain_fn("shifted")];
    let lines = render(&decls, 3);
    assert_eq!(lines, vec![s("      Function: shifted"), s("        └─ Inputs: 0")]);
}

#[test]
fn counts_render_in_decimal() {
    let decls = vec![
        Decl::ImplBlock { self_ty: s("Big"), trait_ref: None, item_count: 12 },
        Decl::TraitDecl { name: s("Huge"), item_count: 107 },
    ];
    let lines = render(&decls, 0);
    assert_eq!(
        lines,
        vec![s("Impl: Big"), s("  └─ Items: 12"), s("Trait: Huge"), s("  └─ Items: 107")]
    );
}

#[test]
fn many_parameters_use_two_digit_indices() {
    let params: Vec<Parameter> = (0..11)
        .map(|i| Parameter::Typed { pattern: format!("p{}", i), ty: s("u8") })
        .collect();
    let decls = vec![Decl::FunctionDecl { name: s("wide"), params, ret: None, generics: None }];
    let lines = render(&decls, 0);
    assert_eq!(lines[1], s("  └─ Inputs: 11"));
    assert_eq!(lines[2], s("    └─ [0] p0 : u8"));
    assert_eq!(lines[12], s("    └─ [10] p10 : u8"));
}

#[test]
fn try_render_accepts_ordinary_input() {
    let decls = vec![Decl::ModuleDecl { name: s("m"), items: Some(vec![plain_fn("f")]) }];
    assert!(depth_fits_seq(&decls, 0));
    let lines = try_render(&decls, 0).expect("ordinary nesting must render");
    assert_eq!(lines, render(&decls, 0));
}

#[test]
fn try_render_declines_unrepresentable_depth() {
    let decls = vec![Decl::ModuleDecl { name: s("deep"), items: Some(vec![]) }];
    assert!(!depth_fits_seq(&decls, usize::MAX));
    assert!(try_render(&decls, usize::MAX).is_none());
}
