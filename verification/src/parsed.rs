//! The untyped declaration as the parser hands it over: names, parameter
//! list, return annotation, generic parameters and a statement-sequence body.

use vstd::prelude::*;

use crate::namespace::{Purity, Visibility};
use crate::span::Span;
use crate::type_system::TypeArgument;

verus! {

/// A name as written in source.
pub struct Ident {
    pub text: String,
    pub span: Span,
}

/// A literal value; an integer written without a suffix starts out
/// [`Literal::Numeric`], its concrete width decided later by unification.
#[derive(Clone, Copy, PartialEq, Eq, Structural, Debug)]
pub enum Literal {
    U8(u8),
    U16(u16),
    U32(u32),
    U64(u64),
    Numeric(u64),
    Boolean(bool),
}

/// An untyped expression.
pub enum Expression {
    Literal { value: Literal, span: Span },
    Variable { name: Ident },
    Block { block: CodeBlock, span: Span },
    If { condition: Box<Expression>, then_block: CodeBlock, else_block: CodeBlock, span: Span },
}

/// What one statement of a body does.
pub enum AstNodeContent {
    Expression(Expression),
    ReturnStatement(Expression),
    ImplicitReturnExpression(Expression),
}

/// One statement of a body.
pub struct AstNode {
    pub content: AstNodeContent,
    pub span: Span,
}

/// A statement sequence.
pub struct CodeBlock {
    pub contents: Vec<AstNode>,
}

/// A syntactic generic parameter of a declaration.
pub struct TypeParameter {
    pub name: Ident,
}

/// A syntactic value parameter of a declaration.
pub struct FunctionParameter {
    pub name: Ident,
    pub is_reference: bool,
    pub is_mutable: bool,
    pub mutability_span: Span,
    pub type_argument: TypeArgument,
}

/// An untyped function declaration, consumed once by the check.
pub struct FunctionDeclaration {
    pub name: Ident,
    pub body: CodeBlock,
    pub parameters: Vec<FunctionParameter>,
    pub span: Span,
    pub return_type: TypeArgument,
    pub type_parameters: Vec<TypeParameter>,
    pub visibility: Visibility,
    pub purity: Purity,
}

} // verus!
