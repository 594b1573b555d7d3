//! The abstract syntax tree that the transformation passes walk.
//!
//! Nodes are plain owned values: child lists are vectors, single children are
//! boxed, and identifier names are strings. Every node carries a byte-range
//! `Span` into the original source, used for diagnostics and source maps and
//! never for identity. A reference to a binding carries the symbol handle that
//! scope resolution assigned to it, or `None` when the reference is unresolved
//! (an implicit global, such as the intrinsic `undefined`).

use vstd::prelude::*;

verus! {

/// A byte range into the source text. Synthesized nodes carry the sentinel
/// span (both offsets zero).
#[derive(Clone, Copy, PartialEq, Eq, Structural, Debug)]
pub struct Span {
    pub start: u32,
    pub end: u32,
}

impl Span {
    /// The span given to nodes that a pass synthesizes out of thin air.
    pub open spec fn spec_sentinel() -> Span {
        Span { start: 0, end: 0 }
    }

    pub fn sentinel() -> (s: Span)
        ensures
            s == Span::spec_sentinel(),
    {
        Span { start: 0, end: 0 }
    }
}

#[derive(Clone, Copy, PartialEq, Eq, Structural, Debug)]
pub enum UnaryOp {
    Void,
    LogicalNot,
    Typeof,
}

#[derive(Clone, Copy, PartialEq, Eq, Structural, Debug)]
pub enum BinaryOp {
    Equality,
    Inequality,
    StrictEquality,
    StrictInequality,
    GreaterThan,
}

#[derive(Clone, Copy, PartialEq, Eq, Structural, Debug)]
pub enum AssignOp {
    Assign,
    AdditionAssign,
}

#[derive(Clone, Copy, PartialEq, Eq, Structural, Debug)]
pub enum UpdateOp {
    Increment,
    Decrement,
}

#[derive(Clone, Copy, PartialEq, Eq, Structural, Debug)]
pub enum VarKind {
    Var,
    Let,
    Const,
}

/// A reference to a binding: a name plus the symbol handle that scope
/// resolution gave it. `symbol == None` means the reference is unresolved,
/// i.e. it names an implicit global such as the intrinsic `undefined`.
#[derive(Debug, PartialEq, Eq)]
pub struct IdentRef {
    pub span: Span,
    pub name: String,
    pub symbol: Option<u32>,
}

/// An identifier in a binding position (a declared name). Every binding
/// identifier has a symbol once scope resolution has run.
#[derive(Debug, PartialEq, Eq)]
pub struct BindingIdent {
    pub span: Span,
    pub name: String,
    pub symbol: Option<u32>,
}

/// The target of an assignment or update; only simple identifier targets
/// appear in this surface. Targets are not expressions: expression-level
/// rewrites never touch them.
#[derive(Debug, PartialEq, Eq)]
pub struct AssignTarget {
    pub span: Span,
    pub name: String,
    pub symbol: Option<u32>,
}

/// One property of an object literal, with a static (non-computed) key.
#[derive(Debug, PartialEq, Eq)]
pub struct Property {
    pub span: Span,
    pub key: String,
    pub value: Expr,
}

#[derive(Debug, PartialEq, Eq)]
pub enum Expr {
    Ident(IdentRef),
    BooleanLit { span: Span, value: bool },
    NumberLit { span: Span, value: u64 },
    StringLit { span: Span, value: String },
    NullLit { span: Span },
    Unary { span: Span, op: UnaryOp, argument: Box<Expr> },
    Binary { span: Span, op: BinaryOp, left: Box<Expr>, right: Box<Expr> },
    Call { span: Span, callee: Box<Expr>, arguments: Vec<Expr> },
    /// A static (dot) member access; the property is a plain name, never a
    /// computed expression.
    StaticMember { span: Span, object: Box<Expr>, property: String, property_span: Span },
    Assign { span: Span, op: AssignOp, target: AssignTarget, value: Box<Expr> },
    Update { span: Span, op: UpdateOp, prefix: bool, target: AssignTarget },
    Function { span: Span, params: Vec<BindingIdent>, body: Vec<Stmt> },
    /// An arrow function. When `expression` is set the body is a single
    /// expression statement standing for the concise `=> expr` form.
    Arrow { span: Span, expression: bool, params: Vec<BindingIdent>, body: Vec<Stmt> },
    ObjectLit { span: Span, properties: Vec<Property> },
}

#[derive(Debug, PartialEq, Eq)]
pub struct VariableDeclarator {
    pub span: Span,
    pub id: BindingIdent,
    pub init: Option<Expr>,
}

#[derive(Debug, PartialEq, Eq)]
pub struct VariableDeclaration {
    pub span: Span,
    pub kind: VarKind,
    pub declarations: Vec<VariableDeclarator>,
}

#[derive(Debug, PartialEq, Eq)]
pub struct CatchClause {
    pub span: Span,
    pub param: Option<BindingIdent>,
    pub body: Vec<Stmt>,
}

/// The left-hand side of a `for..in` head: either a bare assignment target or
/// a fresh declaration.
#[derive(Debug, PartialEq, Eq)]
pub enum ForInLeft {
    Target(AssignTarget),
    Declaration(VariableDeclaration),
}

#[derive(Debug, PartialEq, Eq)]
pub enum Stmt {
    Expression { span: Span, expression: Expr },
    Block { span: Span, body: Vec<Stmt> },
    Empty { span: Span },
    Return { span: Span, argument: Option<Expr> },
    If { span: Span, test: Expr, consequent: Box<Stmt>, alternate: Option<Box<Stmt>> },
    VariableDeclaration(VariableDeclaration),
    FunctionDeclaration { span: Span, id: BindingIdent, params: Vec<BindingIdent>, body: Vec<Stmt> },
    Try { span: Span, block: Vec<Stmt>, handler: Option<CatchClause>, finalizer: Option<Vec<Stmt>> },
    ForIn { span: Span, left: ForInLeft, right: Expr, body: Box<Stmt> },
}

/// Whether a program is a script or a module.
#[derive(Clone, Copy, PartialEq, Eq, Structural, Debug)]
pub struct SourceType {
    pub module: bool,
}

/// The root node: a list of top-level statements plus a source-type
/// descriptor.
#[derive(Debug, PartialEq, Eq)]
pub struct Program {
    pub span: Span,
    pub source_type: SourceType,
    pub body: Vec<Stmt>,
}

} // verus!
