//! The data model of the renderer: one closed tagged union per top-level
//! declaration kind, together with the auxiliary shapes it carries.
//!
//! Every type expression, pattern, generic-parameter list and import tree
//! appears here in its already-rendered textual form: producing that text is
//! the business of an opaque type-expression stringifier outside the
//! library, and the renderer never looks inside it.

use vstd::prelude::*;

verus! {

/// One formal parameter of a function declaration: either an implicit
/// receiver (a `self`-like first argument, with no name or type of its own)
/// or a typed pattern.
pub enum Parameter {
    Receiver,
    Typed { pattern: String, ty: String },
}

/// One named field of a record: the field's name and the rendered text of
/// its type.
pub struct FieldDef {
    pub name: String,
    pub ty: String,
}

/// The data carried by a record declaration: named fields, positionally
/// indexed unnamed fields, or none at all.
pub enum Fields {
    Named(Vec<FieldDef>),
    Unnamed(Vec<String>),
    Unit,
}

/// The shape of the data carried by one enumeration variant. Only the
/// shape is rendered, never the field contents.
pub enum FieldsShape {
    Named,
    Unnamed,
    Unit,
}

/// One variant of an enumeration declaration: its name and the shape of
/// its data.
pub struct VariantInfo {
    pub name: String,
    pub shape: FieldsShape,
}

/// One top-level declaration. The set of variants is closed: a provider
/// maps every node it cannot classify to `OtherDecl`, carrying a stable
/// kind tag for diagnostic purposes, so no node is ever dropped.
///
/// A `ModuleDecl` whose `items` list is absent is a leaf for rendering
/// purposes: its body lives in another file and is not traversed.
pub enum Decl {
    FunctionDecl {
        name: String,
        params: Vec<Parameter>,
        ret: Option<String>,
        generics: Option<String>,
    },
    RecordDecl { name: String, generics: Option<String>, fields: Fields },
    EnumDecl { name: String, generics: Option<String>, variants: Vec<VariantInfo> },
    ImplBlock { self_ty: String, trait_ref: Option<String>, item_count: usize },
    ModuleDecl { name: String, items: Option<Vec<Decl>> },
    UseDecl { tree: String },
    TypeAliasDecl { name: String, ty: String },
    ConstDecl { name: String, ty: String, init: String },
    StaticDecl { name: String, ty: String },
    TraitDecl { name: String, item_count: usize },
    OtherDecl { kind: String },
}

} // verus!
