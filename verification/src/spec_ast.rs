//! The mathematical model of the AST.
//!
//! Every executable node type has a spec-level counterpart whose child lists
//! are `Seq` and whose names are `Seq<char>`; the `View` impls map one onto
//! the other. Contracts and the transformation semantics are stated over
//! these models. The predicates at the bottom are the semantic guards the
//! passes consult (literalness, the resolved-`undefined` test, the
//! `Object.defineProperty(exports, ...)` shape).

use vstd::prelude::*;

use crate::ast::{
    AssignOp, AssignTarget, BindingIdent, BinaryOp, CatchClause, Expr, ForInLeft, IdentRef,
    Program, Property, SourceType, Span, Stmt, UnaryOp, UpdateOp, VarKind, VariableDeclaration,
    VariableDeclarator,
};

verus! {

#[verifier::ext_equal]
pub struct SpecIdentRef {
    pub span: Span,
    pub name: Seq<char>,
    pub symbol: Option<u32>,
}

#[verifier::ext_equal]
pub struct SpecBindingIdent {
    pub span: Span,
    pub name: Seq<char>,
    pub symbol: Option<u32>,
}

#[verifier::ext_equal]
pub struct SpecAssignTarget {
    pub span: Span,
    pub name: Seq<char>,
    pub symbol: Option<u32>,
}

#[verifier::ext_equal]
pub struct SpecProperty {
    pub span: Span,
    pub key: Seq<char>,
    pub value: SpecExpr,
}

#[verifier::ext_equal]
pub enum SpecExpr {
    Ident(SpecIdentRef),
    BooleanLit { span: Span, value: bool },
    NumberLit { span: Span, value: u64 },
    StringLit { span: Span, value: Seq<char> },
    NullLit { span: Span },
    Unary { span: Span, op: UnaryOp, argument: Box<SpecExpr> },
    Binary { span: Span, op: BinaryOp, left: Box<SpecExpr>, right: Box<SpecExpr> },
    Call { span: Span, callee: Box<SpecExpr>, arguments: Seq<SpecExpr> },
    StaticMember { span: Span, object: Box<SpecExpr>, property: Seq<char>, property_span: Span },
    Assign { span: Span, op: AssignOp, target: SpecAssignTarget, value: Box<SpecExpr> },
    Update { span: Span, op: UpdateOp, prefix: bool, target: SpecAssignTarget },
    Function { span: Span, params: Seq<SpecBindingIdent>, body: Seq<SpecStmt> },
    Arrow { span: Span, expression: bool, params: Seq<SpecBindingIdent>, body: Seq<SpecStmt> },
    ObjectLit { span: Span, properties: Seq<SpecProperty> },
}

#[verifier::ext_equal]
pub struct SpecVariableDeclarator {
    pub span: Span,
    pub id: SpecBindingIdent,
    pub init: Option<SpecExpr>,
}

#[verifier::ext_equal]
pub struct SpecVariableDeclaration {
    pub span: Span,
    pub kind: VarKind,
    pub declarations: Seq<SpecVariableDeclarator>,
}

#[verifier::ext_equal]
pub struct SpecCatchClause {
    pub span: Span,
    pub param: Option<SpecBindingIdent>,
    pub body: Seq<SpecStmt>,
}

#[verifier::ext_equal]
pub enum SpecForInLeft {
    Target(SpecAssignTarget),
    Declaration(SpecVariableDeclaration),
}

#[verifier::ext_equal]
pub enum SpecStmt {
    Expression { span: Span, expression: SpecExpr },
    Block { span: Span, body: Seq<SpecStmt> },
    Empty { span: Span },
    Return { span: Span, argument: Option<SpecExpr> },
    If { span: Span, test: SpecExpr, consequent: Box<SpecStmt>, alternate: Option<Box<SpecStmt>> },
    VariableDeclaration(SpecVariableDeclaration),
    FunctionDeclaration {
        span: Span,
        id: SpecBindingIdent,
        params: Seq<SpecBindingIdent>,
        body: Seq<SpecStmt>,
    },
    Try {
        span: Span,
        block: Seq<SpecStmt>,
        handler: Option<SpecCatchClause>,
        finalizer: Option<Seq<SpecStmt>>,
    },
    ForIn { span: Span, left: SpecForInLeft, right: SpecExpr, body: Box<SpecStmt> },
}

#[verifier::ext_equal]
pub struct SpecProgram {
    pub span: Span,
    pub source_type: SourceType,
    pub body: Seq<SpecStmt>,
}

pub open spec fn view_ident(i: IdentRef) -> SpecIdentRef {
    SpecIdentRef { span: i.span, name: i.name@, symbol: i.symbol }
}

pub open spec fn view_binding(b: BindingIdent) -> SpecBindingIdent {
    SpecBindingIdent { span: b.span, name: b.name@, symbol: b.symbol }
}

pub open spec fn view_bindings(bs: Seq<BindingIdent>) -> Seq<SpecBindingIdent>
    decreases bs,
{
    if bs.len() == 0 {
        Seq::empty()
    } else {
        view_bindings(bs.drop_last()).push(view_binding(bs.last()))
    }
}

pub open spec fn view_target(t: AssignTarget) -> SpecAssignTarget {
    SpecAssignTarget { span: t.span, name: t.name@, symbol: t.symbol }
}

pub open spec fn view_expr(e: Expr) -> SpecExpr
    decreases e,
{
    match e {
        Expr::Ident(i) => SpecExpr::Ident(view_ident(i)),
        Expr::BooleanLit { span, value } => SpecExpr::BooleanLit { span, value },
        Expr::NumberLit { span, value } => SpecExpr::NumberLit { span, value },
        Expr::StringLit { span, value } => SpecExpr::StringLit { span, value: value@ },
        Expr::NullLit { span } => SpecExpr::NullLit { span },
        Expr::Unary { span, op, argument } => SpecExpr::Unary {
            span,
            op,
            argument: Box::new(view_expr(*argument)),
        },
        Expr::Binary { span, op, left, right } => SpecExpr::Binary {
            span,
            op,
            left: Box::new(view_expr(*left)),
            right: Box::new(view_expr(*right)),
        },
        Expr::Call { span, callee, arguments } => SpecExpr::Call {
            span,
            callee: Box::new(view_expr(*callee)),
            arguments: view_exprs(arguments@),
        },
        Expr::StaticMember { span, object, property, property_span } => SpecExpr::StaticMember {
            span,
            object: Box::new(view_expr(*object)),
            property: property@,
            property_span,
        },
        Expr::Assign { span, op, target, value } => SpecExpr::Assign {
            span,
            op,
            target: view_target(target),
            value: Box::new(view_expr(*value)),
        },
        Expr::Update { span, op, prefix, target } => SpecExpr::Update {
            span,
            op,
            prefix,
            target: view_target(target),
        },
        Expr::Function { span, params, body } => SpecExpr::Function {
            span,
            params: view_bindings(params@),
            body: view_stmts(body@),
        },
        Expr::Arrow { span, expression, params, body } => SpecExpr::Arrow {
            span,
            expression,
            params: view_bindings(params@),
            body: view_stmts(body@),
        },
        Expr::ObjectLit { span, properties } => SpecExpr::ObjectLit {
            span,
            properties: view_props(properties@),
        },
    }
}

pub open spec fn view_exprs(es: Seq<Expr>) -> Seq<SpecExpr>
    decreases es,
{
    if es.len() == 0 {
        Seq::empty()
    } else {
        view_exprs(es.drop_last()).push(view_expr(es.last()))
    }
}

pub open spec fn view_prop(p: Property) -> SpecProperty
    decreases p,
{
    SpecProperty { span: p.span, key: p.key@, value: view_expr(p.value) }
}

pub open spec fn view_props(ps: Seq<Property>) -> Seq<SpecProperty>
    decreases ps,
{
    if ps.len() == 0 {
        Seq::empty()
    } else {
        view_props(ps.drop_last()).push(view_prop(ps.last()))
    }
}

pub open spec fn view_declarator(d: VariableDeclarator) -> SpecVariableDeclarator
    decreases d,
{
    SpecVariableDeclarator {
        span: d.span,
        id: view_binding(d.id),
        init: match d.init {
            None => None,
            Some(e) => Some(view_expr(e)),
        },
    }
}

pub open spec fn view_declarators(ds: Seq<VariableDeclarator>) -> Seq<SpecVariableDeclarator>
    decreases ds,
{
    if ds.len() == 0 {
        Seq::empty()
    } else {
        view_declarators(ds.drop_last()).push(view_declarator(ds.last()))
    }
}

pub open spec fn view_var_decl(d: VariableDeclaration) -> SpecVariableDeclaration
    decreases d,
{
    SpecVariableDeclaration { span: d.span, kind: d.kind, declarations: view_declarators(d.declarations@) }
}

pub open spec fn view_forin_left(l: ForInLeft) -> SpecForInLeft
    decreases l,
{
    match l {
        ForInLeft::Target(t) => SpecForInLeft::Target(view_target(t)),
        ForInLeft::Declaration(d) => SpecForInLeft::Declaration(view_var_decl(d)),
    }
}

pub open spec fn view_stmt(s: Stmt) -> SpecStmt
    decreases s,
{
    match s {
        Stmt::Expression { span, expression } => SpecStmt::Expression {
            span,
            expression: view_expr(expression),
        },
        Stmt::Block { span, body } => SpecStmt::Block { span, body: view_stmts(body@) },
        Stmt::Empty { span } => SpecStmt::Empty { span },
        Stmt::Return { span, argument } => SpecStmt::Return {
            span,
            argument: match argument {
                None => None,
                Some(e) => Some(view_expr(e)),
            },
        },
        Stmt::If { span, test, consequent, alternate } => SpecStmt::If {
            span,
            test: view_expr(test),
            consequent: Box::new(view_stmt(*consequent)),
            alternate: match alternate {
                None => None,
                Some(a) => Some(Box::new(view_stmt(*a))),
            },
        },
        Stmt::VariableDeclaration(d) => SpecStmt::VariableDeclaration(view_var_decl(d)),
        Stmt::FunctionDeclaration { span, id, params, body } => SpecStmt::FunctionDeclaration {
            span,
            id: view_binding(id),
            params: view_bindings(params@),
            body: view_stmts(body@),
        },
        Stmt::Try { span, block, handler, finalizer } => SpecStmt::Try {
            span,
            block: view_stmts(block@),
            handler: match handler {
                None => None,
                Some(h) => Some(
                    SpecCatchClause {
                        span: h.span,
                        param: match h.param {
                            None => None,
                            Some(p) => Some(view_binding(p)),
                        },
                        body: view_stmts(h.body@),
                    },
                ),
            },
            finalizer: match finalizer {
                None => None,
                Some(f) => Some(view_stmts(f@)),
            },
        },
        Stmt::ForIn { span, left, right, body } => SpecStmt::ForIn {
            span,
            left: view_forin_left(left),
            right: view_expr(right),
            body: Box::new(view_stmt(*body)),
        },
    }
}

pub open spec fn view_stmts(ss: Seq<Stmt>) -> Seq<SpecStmt>
    decreases ss,
{
    if ss.len() == 0 {
        Seq::empty()
    } else {
        view_stmts(ss.drop_last()).push(view_stmt(ss.last()))
    }
}

pub open spec fn view_program(p: Program) -> SpecProgram {
    SpecProgram { span: p.span, source_type: p.source_type, body: view_stmts(p.body@) }
}

impl View for Expr {
    type V = SpecExpr;

    open spec fn view(&self) -> SpecExpr {
        view_expr(*self)
    }
}

impl View for Stmt {
    type V = SpecStmt;

    open spec fn view(&self) -> SpecStmt {
        view_stmt(*self)
    }
}

impl View for Program {
    type V = SpecProgram;

    open spec fn view(&self) -> SpecProgram {
        view_program(*self)
    }
}

impl View for IdentRef {
    type V = SpecIdentRef;

    open spec fn view(&self) -> SpecIdentRef {
        view_ident(*self)
    }
}

/// A literal in the grammatical sense: the operand shapes that make
/// `void <literal>` a pure undefined value.
pub open spec fn is_literal(e: SpecExpr) -> bool {
    match e {
        SpecExpr::BooleanLit { .. } => true,
        SpecExpr::NumberLit { .. } => true,
        SpecExpr::StringLit { .. } => true,
        SpecExpr::NullLit { .. } => true,
        _ => false,
    }
}

/// A reference that names `undefined` and resolves to the global intrinsic:
/// scope resolution left it without a symbol. A binding named `undefined`
/// shadows the intrinsic and carries a symbol, so it fails this test.
pub open spec fn is_intrinsic_undefined(e: SpecExpr) -> bool {
    match e {
        SpecExpr::Ident(i) => i.name == "undefined"@ && i.symbol is None,
        _ => false,
    }
}

/// The shared guard of the transform context: the expression denotes the
/// undefined value, either as an intrinsic `undefined` reference or as
/// `void <literal>`.
pub open spec fn is_expression_undefined(e: SpecExpr) -> bool {
    ||| is_intrinsic_undefined(e)
    ||| match e {
        SpecExpr::Unary { op, argument, .. } => op == UnaryOp::Void && is_literal(*argument),
        _ => false,
    }
}

/// Exactly the expression `void 0`.
pub open spec fn is_void_zero(e: SpecExpr) -> bool {
    match e {
        SpecExpr::Unary { op, argument, .. } => op == UnaryOp::Void && match *argument {
            SpecExpr::NumberLit { value, .. } => value == 0,
            _ => false,
        },
        _ => false,
    }
}

/// The canonical `void 0` node, with sentinel spans.
pub open spec fn void_zero() -> SpecExpr {
    SpecExpr::Unary {
        span: Span::spec_sentinel(),
        op: UnaryOp::Void,
        argument: Box::new(SpecExpr::NumberLit { span: Span::spec_sentinel(), value: 0 }),
    }
}

/// The `!0` / `!1` replacement of a boolean literal: logical not applied to
/// the numeric literal 0 (for `true`) or 1 (for `false`).
pub open spec fn not_number(value: bool) -> SpecExpr {
    SpecExpr::Unary {
        span: Span::spec_sentinel(),
        op: UnaryOp::LogicalNot,
        argument: Box::new(
            SpecExpr::NumberLit {
                span: Span::spec_sentinel(),
                value: if value {
                    0
                } else {
                    1
                },
            },
        ),
    }
}

/// A declaration statement. Unwrapping a block around one of these changes
/// web-compatibility (AnnexB) hoisting semantics, so the block rewrite must
/// leave them alone.
pub open spec fn is_declaration(s: SpecStmt) -> bool {
    match s {
        SpecStmt::VariableDeclaration(_) => true,
        SpecStmt::FunctionDeclaration { .. } => true,
        _ => false,
    }
}

/// The string literal `"undefined"`.
pub open spec fn is_undefined_string_literal(e: SpecExpr) -> bool {
    match e {
        SpecExpr::StringLit { value, .. } => value == "undefined"@,
        _ => false,
    }
}

/// `typeof IDENT`: the other side of the rewritable comparison. Returns the
/// identifier when the shape matches.
pub open spec fn typeof_ident_argument(e: SpecExpr) -> Option<SpecIdentRef> {
    match e {
        SpecExpr::Unary { op, argument, .. } => {
            if op == UnaryOp::Typeof {
                match *argument {
                    SpecExpr::Ident(i) => Some(i),
                    _ => None,
                }
            } else {
                None
            }
        },
        _ => None,
    }
}

/// The syntactic shape `Object.defineProperty(exports, ...)` with a static
/// member access: a define-export statement some runtimes inspect literally,
/// so boolean literals inside it must be left alone.
pub open spec fn is_define_property_exports(callee: SpecExpr, arguments: Seq<SpecExpr>) -> bool {
    &&& arguments.len() >= 1
    &&& match arguments[0] {
        SpecExpr::Ident(i) => i.name == "exports"@,
        _ => false,
    }
    &&& match callee {
        SpecExpr::StaticMember { object, property, .. } => {
            property == "defineProperty"@ && match *object {
                SpecExpr::Ident(i) => i.name == "Object"@,
                _ => false,
            }
        },
        _ => false,
    }
}

} // verus!
