//! The peephole minifier pass: alternate-syntax substitutions.
//!
//! One depth-first traversal drives the rewrites. On entering a statement,
//! single-statement blocks are unwrapped (recursively) unless the statement
//! is a declaration. On entering an expression, an expression denoting the
//! undefined value becomes `void 0`; otherwise a boolean literal becomes
//! `!0` / `!1` when the `booleans` switch is on and the traversal is not
//! inside an `Object.defineProperty(exports, ...)` call. On entering a
//! variable declaration, a non-`const` declarator whose initializer denotes
//! undefined loses the initializer. On leaving a binary expression,
//! `typeof IDENT == "undefined"` (commutatively, also `===`) becomes
//! `typeof IDENT > "u"` when the `typeofs` switch is on; running on exit lets
//! it see operands already folded on enter. On leaving a return statement, an
//! argument that is an intrinsic `undefined` reference or exactly `void 0` is
//! dropped; a reference to a binding named `undefined` is kept, since dropping
//! it would change what the function returns. (The enter rewrite has already
//! folded every intrinsic `undefined` argument to `void 0` by exit time.)
//!
//! The functions `subst_*` are the mathematical definition of the pass: they
//! map a node and the pass state (the sticky `changed` flag and the
//! `in_define_export` flag) to the rewritten node and the state after. The
//! executable pass is proved to compute exactly these functions.

use vstd::prelude::*;

use crate::ast::{
    BinaryOp, Expr, ForInLeft, IdentRef, Program, Property, Span, Stmt, UnaryOp, VarKind,
    VariableDeclaration, VariableDeclarator,
};
use crate::options::{CompressOptions, PassState};
use crate::spec_ast::{
    is_declaration, is_define_property_exports, is_expression_undefined, is_intrinsic_undefined,
    is_literal, is_undefined_string_literal, is_void_zero, not_number,
    typeof_ident_argument, view_expr, view_exprs, view_ident, view_program, view_props,
    view_stmt, view_stmts, void_zero, SpecCatchClause, SpecExpr, SpecForInLeft, SpecIdentRef,
    SpecProgram, SpecProperty, SpecStmt, SpecVariableDeclaration, SpecVariableDeclarator,
    view_declarators, view_var_decl,
};

verus! {

/// The commutative match of `compress_typeof_undefined`: one side must be the
/// string literal `"undefined"`, the other `typeof IDENT`. The first side
/// that matches the literal fixes the orientation; no backtracking happens if
/// the other side then fails.
pub open spec fn typeof_undefined_pair(l: SpecExpr, r: SpecExpr) -> Option<SpecIdentRef> {
    if is_undefined_string_literal(l) {
        typeof_ident_argument(r)
    } else if is_undefined_string_literal(r) {
        typeof_ident_argument(l)
    } else {
        None
    }
}

/// The rewritten comparison: `typeof IDENT > "u"`, keeping the span of the
/// whole comparison and giving the synthesized operands sentinel spans.
pub open spec fn typeof_greater_u(span: Span, id: SpecIdentRef) -> SpecExpr {
    SpecExpr::Binary {
        span,
        op: BinaryOp::GreaterThan,
        left: Box::new(
            SpecExpr::Unary {
                span: Span::spec_sentinel(),
                op: UnaryOp::Typeof,
                argument: Box::new(SpecExpr::Ident(id)),
            },
        ),
        right: Box::new(
            SpecExpr::StringLit { span: Span::spec_sentinel(), value: "u"@ },
        ),
    }
}

/// The exit hook of binary expressions: rewrite `typeof IDENT == "undefined"`
/// (or `===`, commutatively) to `typeof IDENT > "u"` when `typeofs` is on.
pub open spec fn compress_typeof_undefined(e: SpecExpr, o: CompressOptions) -> SpecExpr {
    match e {
        SpecExpr::Binary { span, op, left, right } => {
            if o.typeofs && (op == BinaryOp::Equality || op == BinaryOp::StrictEquality) {
                match typeof_undefined_pair(*left, *right) {
                    Some(id) => typeof_greater_u(span, id),
                    None => e,
                }
            } else {
                e
            }
        },
        _ => e,
    }
}

/// What one traversal of the pass makes of an expression. `in_expr_stmt`
/// says whether the node is the immediate expression of an expression
/// statement (the ancestor check of the define-export guard).
pub open spec fn subst_expr(e: SpecExpr, in_expr_stmt: bool, o: CompressOptions, st: PassState) -> (
    SpecExpr,
    PassState,
)
    decreases e,
{
    if is_expression_undefined(e) {
        (void_zero(), st)
    } else {
        match e {
            SpecExpr::BooleanLit { span, value } => {
                if o.booleans && !st.in_define_export {
                    (not_number(value), st)
                } else {
                    (e, st)
                }
            },
            SpecExpr::Ident(_) => (e, st),
            SpecExpr::NumberLit { .. } => (e, st),
            SpecExpr::StringLit { .. } => (e, st),
            SpecExpr::NullLit { .. } => (e, st),
            SpecExpr::Update { .. } => (e, st),
            SpecExpr::Unary { span, op, argument } => {
                let (a1, st1) = subst_expr(*argument, false, o, st);
                (SpecExpr::Unary { span, op, argument: Box::new(a1) }, st1)
            },
            SpecExpr::Binary { span, op, left, right } => {
                let (l1, st1) = subst_expr(*left, false, o, st);
                let (r1, st2) = subst_expr(*right, false, o, st1);
                (
                    compress_typeof_undefined(
                        SpecExpr::Binary { span, op, left: Box::new(l1), right: Box::new(r1) },
                        o,
                    ),
                    st2,
                )
            },
            SpecExpr::Call { span, callee, arguments } => {
                let st_in = if in_expr_stmt && is_define_property_exports(*callee, arguments) {
                    PassState { changed: st.changed, in_define_export: true }
                } else {
                    st
                };
                let (c1, st1) = subst_expr(*callee, false, o, st_in);
                let (a1, st2) = subst_exprs(arguments, o, st1);
                (
                    SpecExpr::Call { span, callee: Box::new(c1), arguments: a1 },
                    PassState { changed: st2.changed, in_define_export: false },
                )
            },
            SpecExpr::StaticMember { span, object, property, property_span } => {
                let (o1, st1) = subst_expr(*object, false, o, st);
                (
                    SpecExpr::StaticMember {
                        span,
                        object: Box::new(o1),
                        property,
                        property_span,
                    },
                    st1,
                )
            },
            SpecExpr::Assign { span, op, target, value } => {
                let (v1, st1) = subst_expr(*value, false, o, st);
                (SpecExpr::Assign { span, op, target, value: Box::new(v1) }, st1)
            },
            SpecExpr::Function { span, params, body } => {
                let (b1, st1) = subst_stmts(body, o, st);
                (SpecExpr::Function { span, params, body: b1 }, st1)
            },
            SpecExpr::Arrow { span, expression, params, body } => {
                let (b1, st1) = subst_stmts(body, o, st);
                (SpecExpr::Arrow { span, expression, params, body: b1 }, st1)
            },
            SpecExpr::ObjectLit { span, properties } => {
                let (p1, st1) = subst_props(properties, o, st);
                (SpecExpr::ObjectLit { span, properties: p1 }, st1)
            },
        }
    }
}

/// Left-to-right traversal of an argument list.
pub open spec fn subst_exprs(es: Seq<SpecExpr>, o: CompressOptions, st: PassState) -> (
    Seq<SpecExpr>,
    PassState,
)
    decreases es,
{
    if es.len() == 0 {
        (es, st)
    } else {
        let (front, st1) = subst_exprs(es.drop_last(), o, st);
        let (last, st2) = subst_expr(es.last(), false, o, st1);
        (front.push(last), st2)
    }
}

/// Left-to-right traversal of object-literal properties; keys are static and
/// stay untouched, values are expressions.
pub open spec fn subst_props(ps: Seq<SpecProperty>, o: CompressOptions, st: PassState) -> (
    Seq<SpecProperty>,
    PassState,
)
    decreases ps,
{
    if ps.len() == 0 {
        (ps, st)
    } else {
        let (front, st1) = subst_props(ps.drop_last(), o, st);
        let p = ps.last();
        let (v1, st2) = subst_expr(p.value, false, o, st1);
        (front.push(SpecProperty { span: p.span, key: p.key, value: v1 }), st2)
    }
}

/// Left-to-right traversal of the declarators of one declaration. For a
/// non-`const` declaration, an initializer that denotes undefined is dropped
/// (the enter hook); an initializer that stays is then itself rewritten (the
/// descent). The drop never touches the flag the descent reads, so handling
/// each declarator in source order coincides with the hook-then-descend
/// order of the traversal.
pub open spec fn subst_declarators(
    ds: Seq<SpecVariableDeclarator>,
    is_const: bool,
    o: CompressOptions,
    st: PassState,
) -> (Seq<SpecVariableDeclarator>, PassState)
    decreases ds,
{
    if ds.len() == 0 {
        (ds, st)
    } else {
        let (front, st1) = subst_declarators(ds.drop_last(), is_const, o, st);
        let d = ds.last();
        match d.init {
            None => (front.push(d), st1),
            Some(i) => {
                if !is_const && is_expression_undefined(i) {
                    (
                        front.push(SpecVariableDeclarator { span: d.span, id: d.id, init: None }),
                        PassState { changed: true, in_define_export: st1.in_define_export },
                    )
                } else {
                    let (i1, st2) = subst_expr(i, false, o, st1);
                    (
                        front.push(
                            SpecVariableDeclarator { span: d.span, id: d.id, init: Some(i1) },
                        ),
                        st2,
                    )
                }
            },
        }
    }
}

pub open spec fn subst_var_decl(
    d: SpecVariableDeclaration,
    o: CompressOptions,
    st: PassState,
) -> (SpecVariableDeclaration, PassState)
    decreases d,
{
    let (ds1, st1) = subst_declarators(d.declarations, d.kind == VarKind::Const, o, st);
    (SpecVariableDeclaration { span: d.span, kind: d.kind, declarations: ds1 }, st1)
}

/// What one traversal of the pass makes of a statement.
pub open spec fn subst_stmt(s: SpecStmt, o: CompressOptions, st: PassState) -> (
    SpecStmt,
    PassState,
)
    decreases s,
{
    match s {
        SpecStmt::Block { span, body } => {
            if body.len() == 1 && !is_declaration(body[0]) {
                subst_stmt(
                    body[0],
                    o,
                    PassState { changed: true, in_define_export: st.in_define_export },
                )
            } else {
                let (b1, st1) = subst_stmts(body, o, st);
                (SpecStmt::Block { span, body: b1 }, st1)
            }
        },
        SpecStmt::Expression { span, expression } => {
            let (e1, st1) = subst_expr(expression, true, o, st);
            (SpecStmt::Expression { span, expression: e1 }, st1)
        },
        SpecStmt::Empty { .. } => (s, st),
        SpecStmt::Return { span, argument } => {
            match argument {
                None => (s, st),
                Some(a) => {
                    let (a1, st1) = subst_expr(a, false, o, st);
                    if is_intrinsic_undefined(a1) || is_void_zero(a1) {
                        (
                            SpecStmt::Return { span, argument: None },
                            PassState { changed: true, in_define_export: st1.in_define_export },
                        )
                    } else {
                        (SpecStmt::Return { span, argument: Some(a1) }, st1)
                    }
                },
            }
        },
        SpecStmt::If { span, test, consequent, alternate } => {
            let (t1, st1) = subst_expr(test, false, o, st);
            let (c1, st2) = subst_stmt(*consequent, o, st1);
            match alternate {
                None => (
                    SpecStmt::If { span, test: t1, consequent: Box::new(c1), alternate: None },
                    st2,
                ),
                Some(a) => {
                    let (a1, st3) = subst_stmt(*a, o, st2);
                    (
                        SpecStmt::If {
                            span,
                            test: t1,
                            consequent: Box::new(c1),
                            alternate: Some(Box::new(a1)),
                        },
                        st3,
                    )
                },
            }
        },
        SpecStmt::VariableDeclaration(d) => {
            let (d1, st1) = subst_var_decl(d, o, st);
            (SpecStmt::VariableDeclaration(d1), st1)
        },
        SpecStmt::FunctionDeclaration { span, id, params, body } => {
            let (b1, st1) = subst_stmts(body, o, st);
            (SpecStmt::FunctionDeclaration { span, id, params, body: b1 }, st1)
        },
        SpecStmt::Try { span, block, handler, finalizer } => {
            let (b1, st1) = subst_stmts(block, o, st);
            let (h1, st2) = match handler {
                None => (None, st1),
                Some(h) => {
                    let (hb, sth) = subst_stmts(h.body, o, st1);
                    (Some(SpecCatchClause { span: h.span, param: h.param, body: hb }), sth)
                },
            };
            match finalizer {
                None => (SpecStmt::Try { span, block: b1, handler: h1, finalizer: None }, st2),
                Some(f) => {
                    let (f1, st3) = subst_stmts(f, o, st2);
                    (SpecStmt::Try { span, block: b1, handler: h1, finalizer: Some(f1) }, st3)
                },
            }
        },
        SpecStmt::ForIn { span, left, right, body } => {
            let (l1, st1) = match left {
                SpecForInLeft::Target(_) => (left, st),
                SpecForInLeft::Declaration(d) => {
                    let (d1, std) = subst_var_decl(d, o, st);
                    (SpecForInLeft::Declaration(d1), std)
                },
            };
            let (r1, st2) = subst_expr(right, false, o, st1);
            let (b1, st3) = subst_stmt(*body, o, st2);
            (SpecStmt::ForIn { span, left: l1, right: r1, body: Box::new(b1) }, st3)
        },
    }
}

/// Left-to-right traversal of a statement list.
pub open spec fn subst_stmts(ss: Seq<SpecStmt>, o: CompressOptions, st: PassState) -> (
    Seq<SpecStmt>,
    PassState,
)
    decreases ss,
{
    if ss.len() == 0 {
        (ss, st)
    } else {
        let (front, st1) = subst_stmts(ss.drop_last(), o, st);
        let (last, st2) = subst_stmt(ss.last(), o, st1);
        (front.push(last), st2)
    }
}

/// What one run of the pass makes of a whole program: the traversal starts
/// with a clear `changed` flag and outside any define-export call.
pub open spec fn subst_program(p: SpecProgram, o: CompressOptions) -> (SpecProgram, PassState) {
    let (b1, st1) = subst_stmts(p.body, o, PassState { changed: false, in_define_export: false });
    (SpecProgram { span: p.span, source_type: p.source_type, body: b1 }, st1)
}

/// Compares a string against a literal.
fn string_eq(a: &String, b: &str) -> (r: bool)
    ensures
        r == (a@ == b@),
{
    let owned: String = b.to_owned();
    *a == owned
}

/// Executable form of `is_literal`.
fn literal_check(e: &Expr) -> (r: bool)
    ensures
        r == is_literal(e@),
{
    match e {
        Expr::BooleanLit { .. } => true,
        Expr::NumberLit { .. } => true,
        Expr::StringLit { .. } => true,
        Expr::NullLit { .. } => true,
        _ => false,
    }
}

/// Executable form of `is_expression_undefined`: the scope-aware guard.
fn expression_undefined_check(e: &Expr) -> (r: bool)
    ensures
        r == is_expression_undefined(e@),
{
    match e {
        Expr::Ident(i) => i.symbol.is_none() && string_eq(&i.name, "undefined"),
        Expr::Unary { op, argument, .. } => match op {
            UnaryOp::Void => literal_check(argument),
            _ => false,
        },
        _ => false,
    }
}

/// Executable form of `is_intrinsic_undefined`: the scope-aware test on a
/// bare reference.
fn intrinsic_undefined_check(e: &Expr) -> (r: bool)
    ensures
        r == is_intrinsic_undefined(e@),
{
    match e {
        Expr::Ident(i) => i.symbol.is_none() && string_eq(&i.name, "undefined"),
        _ => false,
    }
}

/// Executable form of `is_void_zero`.
fn void_zero_check(e: &Expr) -> (r: bool)
    ensures
        r == is_void_zero(e@),
{
    proof {
        reveal_with_fuel(view_expr, 3);
    }
    match e {
        Expr::Unary { op, argument, .. } => match op {
            UnaryOp::Void => match &**argument {
                Expr::NumberLit { value, .. } => *value == 0,
                _ => false,
            },
            _ => false,
        },
        _ => false,
    }
}

/// Builds the canonical `void 0` node.
fn make_void_zero() -> (r: Expr)
    ensures
        r@ == void_zero(),
{
    proof {
        reveal_with_fuel(view_expr, 3);
    }
    Expr::Unary {
        span: Span::sentinel(),
        op: UnaryOp::Void,
        argument: Box::new(Expr::NumberLit { span: Span::sentinel(), value: 0 }),
    }
}

/// Builds `!0` for `true` and `!1` for `false`.
fn make_not_number(value: bool) -> (r: Expr)
    ensures
        r@ == not_number(value),
{
    proof {
        reveal_with_fuel(view_expr, 3);
    }
    Expr::Unary {
        span: Span::sentinel(),
        op: UnaryOp::LogicalNot,
        argument: Box::new(
            Expr::NumberLit { span: Span::sentinel(), value: if value { 0 } else { 1 } },
        ),
    }
}

/// Executable form of `is_undefined_string_literal`.
fn undefined_string_literal_check(e: &Expr) -> (r: bool)
    ensures
        r == is_undefined_string_literal(e@),
{
    match e {
        Expr::StringLit { value, .. } => string_eq(value, "undefined"),
        _ => false,
    }
}

/// Extracts (as a copy) the identifier of a `typeof IDENT` expression.
fn typeof_ident_copy(e: &Expr) -> (r: Option<IdentRef>)
    ensures
        match r {
            Some(id) => typeof_ident_argument(e@) == Some(view_ident(id)),
            None => typeof_ident_argument(e@) is None,
        },
{
    proof {
        reveal_with_fuel(view_expr, 3);
    }
    match e {
        Expr::Unary { op, argument, .. } => match op {
            UnaryOp::Typeof => match &**argument {
                Expr::Ident(i) => Some(
                    IdentRef { span: i.span, name: i.name.clone(), symbol: i.symbol },
                ),
                _ => None,
            },
            _ => None,
        },
        _ => None,
    }
}

/// Executable form of the define-export shape test.
fn define_property_exports_check(callee: &Expr, arguments: &Vec<Expr>) -> (r: bool)
    ensures
        r == is_define_property_exports(callee@, view_exprs(arguments@)),
{
    proof {
        lemma_view_exprs_index(arguments@);
        reveal_with_fuel(view_expr, 3);
    }
    if arguments.len() == 0 {
        return false;
    }
    let first_is_exports = match &arguments[0] {
        Expr::Ident(i) => string_eq(&i.name, "exports"),
        _ => false,
    };
    if !first_is_exports {
        return false;
    }
    match callee {
        Expr::StaticMember { object, property, .. } => {
            if string_eq(property, "defineProperty") {
                match &**object {
                    Expr::Ident(i) => string_eq(&i.name, "Object"),
                    _ => false,
                }
            } else {
                false
            }
        },
        _ => false,
    }
}

/// The element view of a viewed expression list.
pub proof fn lemma_view_exprs_index(es: Seq<Expr>)
    ensures
        view_exprs(es).len() == es.len(),
        forall|i: int| 0 <= i < es.len() ==> view_exprs(es)[i] == view_expr(es[i]),
    decreases es,
{
    if es.len() > 0 {
        lemma_view_exprs_index(es.drop_last());
    }
}

/// The element view of a viewed statement list.
pub proof fn lemma_view_stmts_index(ss: Seq<Stmt>)
    ensures
        view_stmts(ss).len() == ss.len(),
        forall|i: int| 0 <= i < ss.len() ==> view_stmts(ss)[i] == view_stmt(ss[i]),
    decreases ss,
{
    if ss.len() > 0 {
        lemma_view_stmts_index(ss.drop_last());
    }
}

/// One traversal step of the pass over an expression; computes `subst_expr`.
fn minify_expr(e: Expr, in_expr_stmt: bool, o: &CompressOptions, st: &mut PassState) -> (r: Expr)
    ensures
        ({
            let (rs, ss) = subst_expr(e@, in_expr_stmt, *o, *old(st));
            r@ == rs && *final(st) == ss
        }),
    decreases e,
{
    if expression_undefined_check(&e) {
        return make_void_zero();
    }
    match e {
        Expr::BooleanLit { span, value } => {
            if o.booleans && !st.in_define_export {
                make_not_number(value)
            } else {
                Expr::BooleanLit { span, value }
            }
        },
        Expr::Ident(i) => Expr::Ident(i),
        Expr::NumberLit { span, value } => Expr::NumberLit { span, value },
        Expr::StringLit { span, value } => Expr::StringLit { span, value },
        Expr::NullLit { span } => Expr::NullLit { span },
        Expr::Update { span, op, prefix, target } => Expr::Update { span, op, prefix, target },
        Expr::Unary { span, op, argument } => {
            let a1 = minify_expr(*argument, false, o, st);
            Expr::Unary { span, op, argument: Box::new(a1) }
        },
        Expr::Binary { span, op, left, right } => {
            let l1 = minify_expr(*left, false, o, st);
            let r1 = minify_expr(*right, false, o, st);
            exit_binary_expression(span, op, l1, r1, o)
        },
        Expr::Call { span, callee, arguments } => {
            if in_expr_stmt && define_property_exports_check(&callee, &arguments) {
                st.in_define_export = true;
            }
            let c1 = minify_expr(*callee, false, o, st);
            let a1 = minify_exprs(arguments, o, st);
            st.in_define_export = false;
            Expr::Call { span, callee: Box::new(c1), arguments: a1 }
        },
        Expr::StaticMember { span, object, property, property_span } => {
            let o1 = minify_expr(*object, false, o, st);
            Expr::StaticMember { span, object: Box::new(o1), property, property_span }
        },
        Expr::Assign { span, op, target, value } => {
            let v1 = minify_expr(*value, false, o, st);
            Expr::Assign { span, op, target, value: Box::new(v1) }
        },
        Expr::Function { span, params, body } => {
            let b1 = minify_stmts(body, o, st);
            Expr::Function { span, params, body: b1 }
        },
        Expr::Arrow { span, expression, params, body } => {
            let b1 = minify_stmts(body, o, st);
            Expr::Arrow { span, expression, params, body: b1 }
        },
        Expr::ObjectLit { span, properties } => {
            let p1 = minify_props(properties, o, st);
            Expr::ObjectLit { span, properties: p1 }
        },
    }
}

/// The exit hook of binary expressions; computes `compress_typeof_undefined`
/// on the rebuilt comparison.
fn exit_binary_expression(
    span: Span,
    op: BinaryOp,
    left: Expr,
    right: Expr,
    o: &CompressOptions,
) -> (r: Expr)
    ensures
        r@ == compress_typeof_undefined(
            SpecExpr::Binary {
                span,
                op,
                left: Box::new(left@),
                right: Box::new(right@),
            },
            *o,
        ),
{
    proof {
        reveal_with_fuel(view_expr, 4);
    }
    if o.typeofs && (op == BinaryOp::Equality || op == BinaryOp::StrictEquality) {
        let picked: Option<IdentRef> = if undefined_string_literal_check(&left) {
            typeof_ident_copy(&right)
        } else if undefined_string_literal_check(&right) {
            typeof_ident_copy(&left)
        } else {
            None
        };
        match picked {
            Some(id) => Expr::Binary {
                span,
                op: BinaryOp::GreaterThan,
                left: Box::new(
                    Expr::Unary {
                        span: Span::sentinel(),
                        op: UnaryOp::Typeof,
                        argument: Box::new(Expr::Ident(id)),
                    },
                ),
                right: Box::new(
                    Expr::StringLit { span: Span::sentinel(), value: "u".to_owned() },
                ),
            },
            None => Expr::Binary { span, op, left: Box::new(left), right: Box::new(right) },
        }
    } else {
        Expr::Binary { span, op, left: Box::new(left), right: Box::new(right) }
    }
}

/// Traverses an argument list left to right; computes `subst_exprs`.
fn minify_exprs(es: Vec<Expr>, o: &CompressOptions, st: &mut PassState) -> (r: Vec<Expr>)
    ensures
        ({
            let (rs, ss) = subst_exprs(view_exprs(es@), *o, *old(st));
            view_exprs(r@) == rs && *final(st) == ss
        }),
    decreases es@,
{
    let mut es = es;
    let ghost es0 = es@;
    if es.len() == 0 {
        return es;
    }
    let last = match es.pop() {
        Some(x) => x,
        None => {
            proof {
                assert(false);
            }
            return es;
        },
    };
    proof {
        assert(es@ =~= es0.drop_last());
        assert(view_exprs(es0).drop_last() =~= view_exprs(es0.drop_last()));
        assert(view_exprs(es0).last() == view_expr(es0.last()));
        assert(view_exprs(es0).len() == es0.len()) by {
            lemma_view_exprs_index(es0);
        }
    }
    let mut front = minify_exprs(es, o, st);
    let ghost front0 = front@;
    let last1 = minify_expr(last, false, o, st);
    front.push(last1);
    proof {
        assert(front@.drop_last() =~= front0);
        assert(front@.last() == last1);
    }
    front
}

/// Traverses object-literal property values; computes `subst_props`.
fn minify_props(ps: Vec<Property>, o: &CompressOptions, st: &mut PassState) -> (r: Vec<Property>)
    ensures
        ({
            let (rs, ss) = subst_props(view_props(ps@), *o, *old(st));
            view_props(r@) == rs && *final(st) == ss
        }),
    decreases ps@,
{
    let mut ps = ps;
    let ghost ps0 = ps@;
    if ps.len() == 0 {
        return ps;
    }
    let last = match ps.pop() {
        Some(x) => x,
        None => {
            proof {
                assert(false);
            }
            return ps;
        },
    };
    proof {
        assert(ps@ =~= ps0.drop_last());
        assert(view_props(ps0).drop_last() =~= view_props(ps0.drop_last()));
        assert(view_props(ps0).last() == crate::spec_ast::view_prop(ps0.last()));
    }
    let ghost st0 = *st;
    let mut front = minify_props(ps, o, st);
    let ghost front0 = front@;
    let ghost st_mid = *st;
    let ghost key0 = last.key@;
    let ghost span0 = last.span;
    let v1 = minify_expr(last.value, false, o, st);
    front.push(Property { span: last.span, key: last.key, value: v1 });
    proof {
        assert(front@.drop_last() =~= front0);
        let vp = view_props(ps0);
        assert(vp.len() > 0);
        assert(vp.drop_last() == view_props(ps0.drop_last()));
        assert(vp.last() == crate::spec_ast::view_prop(ps0.last()));
        assert((view_props(front0), st_mid) == subst_props(vp.drop_last(), *o, st0));
        assert(vp.last().value == view_expr(ps0.last().value));
        assert((v1@, *st) == subst_expr(vp.last().value, false, *o, st_mid));
        assert(crate::spec_ast::view_prop(front@.last()) == (SpecProperty {
            span: span0,
            key: key0,
            value: v1@,
        }));
        assert(view_props(front@) == view_props(front0).push(
            crate::spec_ast::view_prop(front@.last()),
        ));
        assert(view_props(front@) == subst_props(vp, *o, st0).0);
        assert(*st == subst_props(vp, *o, st0).1);
    }
    front
}

/// Traverses the declarators of one declaration; computes
/// `subst_declarators`.
#[verifier::rlimit(100)]
fn minify_declarators(
    ds: Vec<VariableDeclarator>,
    is_const: bool,
    o: &CompressOptions,
    st: &mut PassState,
) -> (r: Vec<VariableDeclarator>)
    ensures
        ({
            let (rs, ss) = subst_declarators(view_declarators(ds@), is_const, *o, *old(st));
            view_declarators(r@) == rs && *final(st) == ss
        }),
    decreases ds@,
{
    let mut ds = ds;
    let ghost ds0 = ds@;
    if ds.len() == 0 {
        return ds;
    }
    let last = match ds.pop() {
        Some(x) => x,
        None => {
            proof {
                assert(false);
            }
            return ds;
        },
    };
    proof {
        assert(ds@ =~= ds0.drop_last());
        assert(view_declarators(ds0).drop_last() =~= view_declarators(ds0.drop_last()));
        assert(view_declarators(ds0).last() == crate::spec_ast::view_declarator(ds0.last()));
    }
    let ghost st0 = *st;
    let mut front = minify_declarators(ds, is_const, o, st);
    let ghost front0 = front@;
    let ghost st_mid = *st;
    let ghost vd = view_declarators(ds0);
    proof {
        assert(vd.len() > 0);
        assert((view_declarators(front0), st_mid) == subst_declarators(
            vd.drop_last(),
            is_const,
            *o,
            st0,
        ));
        assert(vd.last().init == match ds0.last().init {
            None => None::<SpecExpr>,
            Some(e) => Some(view_expr(e)),
        });
    }
    let d1 = match last.init {
        None => VariableDeclarator { span: last.span, id: last.id, init: None },
        Some(i) => {
            if !is_const && expression_undefined_check(&i) {
                st.changed = true;
                VariableDeclarator { span: last.span, id: last.id, init: None }
            } else {
                let i1 = minify_expr(i, false, o, st);
                VariableDeclarator { span: last.span, id: last.id, init: Some(i1) }
            }
        },
    };
    front.push(d1);
    proof {
        assert(front@.drop_last() =~= front0);
        assert(front@.last() == d1);
        assert(view_declarators(front@) == view_declarators(front0).push(
            crate::spec_ast::view_declarator(d1),
        ));
        assert((view_declarators(front@), *st) == subst_declarators(vd, is_const, *o, st0));
    }
    front
}

/// The enter hook plus descent for one variable declaration; computes
/// `subst_var_decl`.
fn minify_var_decl(
    d: VariableDeclaration,
    o: &CompressOptions,
    st: &mut PassState,
) -> (r: VariableDeclaration)
    ensures
        ({
            let (rs, ss) = subst_var_decl(view_var_decl(d), *o, *old(st));
            view_var_decl(r) == rs && *final(st) == ss
        }),
    decreases d,
{
    let is_const = match d.kind {
        VarKind::Const => true,
        _ => false,
    };
    let ds1 = minify_declarators(d.declarations, is_const, o, st);
    VariableDeclaration { span: d.span, kind: d.kind, declarations: ds1 }
}

/// One traversal step of the pass over a statement; computes `subst_stmt`.
#[verifier::rlimit(100)]
fn minify_stmt(s: Stmt, o: &CompressOptions, st: &mut PassState) -> (r: Stmt)
    ensures
        ({
            let (rs, ss) = subst_stmt(s@, *o, *old(st));
            r@ == rs && *final(st) == ss
        }),
    decreases s,
{
    let ghost s0 = s@;
    let ghost st0 = *st;
    match s {
        Stmt::Block { span, mut body } => {
            proof {
                lemma_view_stmts_index(body@);
            }
            if body.len() == 1 && !stmt_is_declaration(&body[0]) {
                let inner = match body.pop() {
                    Some(x) => x,
                    None => {
                        proof {
                            assert(false);
                        }
                        return Stmt::Block { span, body };
                    },
                };
                st.changed = true;
                let r = minify_stmt(inner, o, st);
                proof {
                    assert((r@, *st) == subst_stmt(s0, *o, st0));
                }
                r
            } else {
                let b1 = minify_stmts(body, o, st);
                let r = Stmt::Block { span, body: b1 };
                proof {
                    assert((r@, *st) == subst_stmt(s0, *o, st0));
                }
                r
            }
        },
        Stmt::Expression { span, expression } => {
            let e1 = minify_expr(expression, true, o, st);
            let r = Stmt::Expression { span, expression: e1 };
            proof {
                assert((r@, *st) == subst_stmt(s0, *o, st0));
            }
            r
        },
        Stmt::Empty { span } => Stmt::Empty { span },
        Stmt::Return { span, argument } => {
            match argument {
                None => Stmt::Return { span, argument: None },
                Some(a) => {
                    let a1 = minify_expr(a, false, o, st);
                    let r = if intrinsic_undefined_check(&a1) || void_zero_check(&a1) {
                        st.changed = true;
                        Stmt::Return { span, argument: None }
                    } else {
                        Stmt::Return { span, argument: Some(a1) }
                    };
                    proof {
                        assert((r@, *st) == subst_stmt(s0, *o, st0));
                    }
                    r
                },
            }
        },
        Stmt::If { span, test, consequent, alternate } => {
            let t1 = minify_expr(test, false, o, st);
            let c1 = minify_stmt(*consequent, o, st);
            let r = match alternate {
                None => Stmt::If { span, test: t1, consequent: Box::new(c1), alternate: None },
                Some(a) => {
                    let a1 = minify_stmt(*a, o, st);
                    Stmt::If {
                        span,
                        test: t1,
                        consequent: Box::new(c1),
                        alternate: Some(Box::new(a1)),
                    }
                },
            };
            proof {
                assert((r@, *st) == subst_stmt(s0, *o, st0));
            }
            r
        },
        Stmt::VariableDeclaration(d) => {
            let d1 = minify_var_decl(d, o, st);
            let r = Stmt::VariableDeclaration(d1);
            proof {
                assert((r@, *st) == subst_stmt(s0, *o, st0));
            }
            r
        },
        Stmt::FunctionDeclaration { span, id, params, body } => {
            let b1 = minify_stmts(body, o, st);
            let r = Stmt::FunctionDeclaration { span, id, params, body: b1 };
            proof {
                assert((r@, *st) == subst_stmt(s0, *o, st0));
            }
            r
        },
        Stmt::Try { span, block, handler, finalizer } => {
            let b1 = minify_stmts(block, o, st);
            let h1 = match handler {
                None => None,
                Some(h) => {
                    let hb = minify_stmts(h.body, o, st);
                    Some(crate::ast::CatchClause { span: h.span, param: h.param, body: hb })
                },
            };
            let f1 = match finalizer {
                None => None,
                Some(f) => Some(minify_stmts(f, o, st)),
            };
            let r = Stmt::Try { span, block: b1, handler: h1, finalizer: f1 };
            proof {
                assert((r@, *st) == subst_stmt(s0, *o, st0));
            }
            r
        },
        Stmt::ForIn { span, left, right, body } => {
            let l1 = match left {
                ForInLeft::Target(t) => ForInLeft::Target(t),
                ForInLeft::Declaration(d) => ForInLeft::Declaration(minify_var_decl(d, o, st)),
            };
            let r1 = minify_expr(right, false, o, st);
            let b1 = minify_stmt(*body, o, st);
            let r = Stmt::ForIn { span, left: l1, right: r1, body: Box::new(b1) };
            proof {
                reveal_with_fuel(view_stmt, 3);
                assert((r@, *st) == subst_stmt(s0, *o, st0));
            }
            r
        },
    }
}

/// Executable form of `is_declaration`.
fn stmt_is_declaration(s: &Stmt) -> (r: bool)
    ensures
        r == is_declaration(s@),
{
    match s {
        Stmt::VariableDeclaration(_) => true,
        Stmt::FunctionDeclaration { .. } => true,
        _ => false,
    }
}

/// Traverses a statement list left to right; computes `subst_stmts`.
fn minify_stmts(ss: Vec<Stmt>, o: &CompressOptions, st: &mut PassState) -> (r: Vec<Stmt>)
    ensures
        ({
            let (rs, ss2) = subst_stmts(view_stmts(ss@), *o, *old(st));
            view_stmts(r@) == rs && *final(st) == ss2
        }),
    decreases ss@,
{
    let mut ss = ss;
    let ghost ss0 = ss@;
    if ss.len() == 0 {
        return ss;
    }
    let last = match ss.pop() {
        Some(x) => x,
        None => {
            proof {
                assert(false);
            }
            return ss;
        },
    };
    proof {
        assert(ss@ =~= ss0.drop_last());
        assert(view_stmts(ss0).drop_last() =~= view_stmts(ss0.drop_last()));
        assert(view_stmts(ss0).last() == view_stmt(ss0.last()));
    }
    let mut front = minify_stmts(ss, o, st);
    let ghost front0 = front@;
    let last1 = minify_stmt(last, o, st);
    front.push(last1);
    proof {
        assert(front@.drop_last() =~= front0);
        assert(front@.last() == last1);
    }
    front
}

/// The peephole pass object: its options and the two flags that make up the
/// whole state of the pass.
pub struct PeepholeSubstituteAlternateSyntax {
    options: CompressOptions,
    in_define_export: bool,
    changed: bool,
}

impl PeepholeSubstituteAlternateSyntax {
    pub closed spec fn spec_options(&self) -> CompressOptions {
        self.options
    }

    pub closed spec fn spec_changed(&self) -> bool {
        self.changed
    }

    pub closed spec fn spec_in_define_export(&self) -> bool {
        self.in_define_export
    }

    pub fn new(options: CompressOptions) -> (r: Self)
        ensures
            r.spec_options() == options,
            !r.spec_changed(),
            !r.spec_in_define_export(),
    {
        Self { options, in_define_export: false, changed: false }
    }

    /// Whether the last `build` rewrote anything; the driver reads this to
    /// decide on another pass.
    pub fn changed(&self) -> (r: bool)
        ensures
            r == self.spec_changed(),
    {
        self.changed
    }

    /// Runs one traversal of the pass over the program. The rewritten program
    /// and the flags are exactly what `subst_program` says.
    pub fn build(&mut self, program: &mut Program)
        ensures
            ({
                let (ps, ss) = subst_program(old(program)@, old(self).spec_options());
                final(program)@ == ps && final(self).spec_changed() == ss.changed
                    && final(self).spec_in_define_export() == ss.in_define_export
                    && final(self).spec_options() == old(self).spec_options()
            }),
    {
        self.changed = false;
        self.in_define_export = false;
        let mut body: Vec<Stmt> = Vec::new();
        core::mem::swap(&mut body, &mut program.body);
        let mut st = PassState { changed: false, in_define_export: false };
        let b1 = minify_stmts(body, &self.options, &mut st);
        program.body = b1;
        self.changed = st.changed;
        self.in_define_export = st.in_define_export;
    }
}

} // verus!
