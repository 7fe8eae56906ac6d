//! Semantic analysis of function declarations: scoped binding of generics and
//! parameters, return-type resolution and unification against every return
//! statement, visibility and ABI classification, and canonical selector
//! encoding of a resolved signature.

pub mod code_block;
pub mod diagnostics;
pub mod function;
pub mod namespace;
pub mod parsed;
pub mod span;
pub mod style;
pub mod text;
pub mod ty;
pub mod type_system;
