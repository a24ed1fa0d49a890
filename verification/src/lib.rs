//! A verified renderer of indentation-based outlines for the top-level
//! declarations of a source file.
//!
//! The library takes a sequence of [`decl::Decl`] values — a closed model of
//! the declarations an abstract-syntax-tree provider can hand over, with
//! every type expression already rendered to plain text — and produces the
//! ordered list of output lines describing them, recursing into nested
//! module bodies at increased indentation depth.

pub mod decl;
pub mod numeral;
pub mod render;
pub mod laws;
