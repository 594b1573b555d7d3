//! The transformer pipeline: a single traversal whose hooks fan out to the
//! member passes in a fixed declared order.
//!
//! The lowering passes (TypeScript stripping, JSX, the per-year lowerers,
//! the regexp lowerer) each claim a subset of the hooks; the common pass
//! runs last and normalizes arrow-function bodies on exit: when an arrow is
//! expression-bodied but statements have been inserted ahead of its original
//! expression, the trailing expression statement becomes an explicit
//! `return` and the expression flag is cleared. That exit hook is what this
//! traversal performs; it is the post-plugin invariant keeper: after the
//! walk, an expression-bodied arrow has exactly one statement.
//!
//! The `arrow_wf_*` predicates state the internal invariant the traversal
//! relies on: an expression-bodied arrow with more than one statement ends
//! in an expression statement. A node violating it indicates a bug in an
//! earlier pass; the traversal is not defined on such input.

use vstd::prelude::*;

use crate::ast::{Expr, ForInLeft, Program, Property, Span, Stmt, UnaryOp, VariableDeclaration,
    VariableDeclarator};
use crate::options::CompressOptions;
use crate::spec_ast::{
    view_expr, view_exprs, view_program, view_props, view_stmt, view_stmts, SpecCatchClause,
    SpecExpr, SpecForInLeft, SpecProgram, SpecProperty, SpecStmt, SpecVariableDeclaration,
    SpecVariableDeclarator, view_declarators, view_var_decl,
};
use crate::symbols::{Diagnostic, ScopeTree, SymbolTable};
use crate::peephole::{lemma_view_stmts_index};

verus! {

/// The invariant of expression-bodied arrows, over an expression subtree.
pub open spec fn arrow_wf_expr(e: SpecExpr) -> bool
    decreases e,
{
    match e {
        SpecExpr::Ident(_) => true,
        SpecExpr::BooleanLit { .. } => true,
        SpecExpr::NumberLit { .. } => true,
        SpecExpr::StringLit { .. } => true,
        SpecExpr::NullLit { .. } => true,
        SpecExpr::Update { .. } => true,
        SpecExpr::Unary { argument, .. } => arrow_wf_expr(*argument),
        SpecExpr::Binary { left, right, .. } => arrow_wf_expr(*left) && arrow_wf_expr(*right),
        SpecExpr::Call { callee, arguments, .. } => arrow_wf_expr(*callee) && arrow_wf_exprs(
            arguments,
        ),
        SpecExpr::StaticMember { object, .. } => arrow_wf_expr(*object),
        SpecExpr::Assign { value, .. } => arrow_wf_expr(*value),
        SpecExpr::Function { body, .. } => arrow_wf_stmts(body),
        SpecExpr::Arrow { expression, body, .. } => {
            &&& arrow_wf_stmts(body)
            &&& (expression && body.len() > 1 ==> body.last() is Expression)
        },
        SpecExpr::ObjectLit { properties, .. } => arrow_wf_props(properties),
    }
}

pub open spec fn arrow_wf_exprs(es: Seq<SpecExpr>) -> bool
    decreases es,
{
    if es.len() == 0 {
        true
    } else {
        arrow_wf_exprs(es.drop_last()) && arrow_wf_expr(es.last())
    }
}

pub open spec fn arrow_wf_props(ps: Seq<SpecProperty>) -> bool
    decreases ps,
{
    if ps.len() == 0 {
        true
    } else {
        arrow_wf_props(ps.drop_last()) && arrow_wf_expr(ps.last().value)
    }
}

pub open spec fn arrow_wf_declarators(ds: Seq<SpecVariableDeclarator>) -> bool
    decreases ds,
{
    if ds.len() == 0 {
        true
    } else {
        arrow_wf_declarators(ds.drop_last()) && match ds.last().init {
            None => true,
            Some(i) => arrow_wf_expr(i),
        }
    }
}

pub open spec fn arrow_wf_stmt(s: SpecStmt) -> bool
    decreases s,
{
    match s {
        SpecStmt::Expression { expression, .. } => arrow_wf_expr(expression),
        SpecStmt::Block { body, .. } => arrow_wf_stmts(body),
        SpecStmt::Empty { .. } => true,
        SpecStmt::Return { argument, .. } => match argument {
            None => true,
            Some(a) => arrow_wf_expr(a),
        },
        SpecStmt::If { test, consequent, alternate, .. } => {
            &&& arrow_wf_expr(test)
            &&& arrow_wf_stmt(*consequent)
            &&& match alternate {
                None => true,
                Some(a) => arrow_wf_stmt(*a),
            }
        },
        SpecStmt::VariableDeclaration(d) => arrow_wf_declarators(d.declarations),
        SpecStmt::FunctionDeclaration { body, .. } => arrow_wf_stmts(body),
        SpecStmt::Try { block, handler, finalizer, .. } => {
            &&& arrow_wf_stmts(block)
            &&& match handler {
                None => true,
                Some(h) => arrow_wf_stmts(h.body),
            }
            &&& match finalizer {
                None => true,
                Some(f) => arrow_wf_stmts(f),
            }
        },
        SpecStmt::ForIn { left, right, body, .. } => {
            &&& match left {
                SpecForInLeft::Target(_) => true,
                SpecForInLeft::Declaration(d) => arrow_wf_declarators(d.declarations),
            }
            &&& arrow_wf_expr(right)
            &&& arrow_wf_stmt(*body)
        },
    }
}

pub open spec fn arrow_wf_stmts(ss: Seq<SpecStmt>) -> bool
    decreases ss,
{
    if ss.len() == 0 {
        true
    } else {
        arrow_wf_stmts(ss.drop_last()) && arrow_wf_stmt(ss.last())
    }
}

pub open spec fn arrow_wf_program(p: SpecProgram) -> bool {
    arrow_wf_stmts(p.body)
}

/// The arrow-exit hook: children already normalized, the arrow itself is
/// converted to block-bodied form when statements stand ahead of its
/// original expression.
pub open spec fn normalize_arrow(
    span: Span,
    expression: bool,
    params: Seq<crate::spec_ast::SpecBindingIdent>,
    body: Seq<SpecStmt>,
) -> SpecExpr {
    if expression && body.len() > 1 {
        let folded = body.last()->expression;
        SpecExpr::Arrow {
            span,
            expression: false,
            params,
            body: body.drop_last().push(
                SpecStmt::Return { span: Span::spec_sentinel(), argument: Some(folded) },
            ),
        }
    } else {
        SpecExpr::Arrow { span, expression, params, body }
    }
}

/// One post-order traversal of the normalization over an expression.
pub open spec fn norm_expr(e: SpecExpr) -> SpecExpr
    decreases e,
{
    match e {
        SpecExpr::Ident(_) => e,
        SpecExpr::BooleanLit { .. } => e,
        SpecExpr::NumberLit { .. } => e,
        SpecExpr::StringLit { .. } => e,
        SpecExpr::NullLit { .. } => e,
        SpecExpr::Update { .. } => e,
        SpecExpr::Unary { span, op, argument } => SpecExpr::Unary {
            span,
            op,
            argument: Box::new(norm_expr(*argument)),
        },
        SpecExpr::Binary { span, op, left, right } => SpecExpr::Binary {
            span,
            op,
            left: Box::new(norm_expr(*left)),
            right: Box::new(norm_expr(*right)),
        },
        SpecExpr::Call { span, callee, arguments } => SpecExpr::Call {
            span,
            callee: Box::new(norm_expr(*callee)),
            arguments: norm_exprs(arguments),
        },
        SpecExpr::StaticMember { span, object, property, property_span } => SpecExpr::StaticMember {
            span,
            object: Box::new(norm_expr(*object)),
            property,
            property_span,
        },
        SpecExpr::Assign { span, op, target, value } => SpecExpr::Assign {
            span,
            op,
            target,
            value: Box::new(norm_expr(*value)),
        },
        SpecExpr::Function { span, params, body } => SpecExpr::Function {
            span,
            params,
            body: norm_stmts(body),
        },
        SpecExpr::Arrow { span, expression, params, body } => normalize_arrow(
            span,
            expression,
            params,
            norm_stmts(body),
        ),
        SpecExpr::ObjectLit { span, properties } => SpecExpr::ObjectLit {
            span,
            properties: norm_props(properties),
        },
    }
}

pub open spec fn norm_exprs(es: Seq<SpecExpr>) -> Seq<SpecExpr>
    decreases es,
{
    if es.len() == 0 {
        es
    } else {
        norm_exprs(es.drop_last()).push(norm_expr(es.last()))
    }
}

pub open spec fn norm_props(ps: Seq<SpecProperty>) -> Seq<SpecProperty>
    decreases ps,
{
    if ps.len() == 0 {
        ps
    } else {
        let p = ps.last();
        norm_props(ps.drop_last()).push(
            SpecProperty { span: p.span, key: p.key, value: norm_expr(p.value) },
        )
    }
}

pub open spec fn norm_declarators(ds: Seq<SpecVariableDeclarator>) -> Seq<SpecVariableDeclarator>
    decreases ds,
{
    if ds.len() == 0 {
        ds
    } else {
        let d = ds.last();
        norm_declarators(ds.drop_last()).push(
            SpecVariableDeclarator {
                span: d.span,
                id: d.id,
                init: match d.init {
                    None => None,
                    Some(i) => Some(norm_expr(i)),
                },
            },
        )
    }
}

pub open spec fn norm_var_decl(d: SpecVariableDeclaration) -> SpecVariableDeclaration
    decreases d,
{
    SpecVariableDeclaration { span: d.span, kind: d.kind, declarations: norm_declarators(
        d.declarations,
    ) }
}

pub open spec fn norm_stmt(s: SpecStmt) -> SpecStmt
    decreases s,
{
    match s {
        SpecStmt::Expression { span, expression } => SpecStmt::Expression {
            span,
            expression: norm_expr(expression),
        },
        SpecStmt::Block { span, body } => SpecStmt::Block { span, body: norm_stmts(body) },
        SpecStmt::Empty { .. } => s,
        SpecStmt::Return { span, argument } => SpecStmt::Return {
            span,
            argument: match argument {
                None => None,
                Some(a) => Some(norm_expr(a)),
            },
        },
        SpecStmt::If { span, test, consequent, alternate } => SpecStmt::If {
            span,
            test: norm_expr(test),
            consequent: Box::new(norm_stmt(*consequent)),
            alternate: match alternate {
                None => None,
                Some(a) => Some(Box::new(norm_stmt(*a))),
            },
        },
        SpecStmt::VariableDeclaration(d) => SpecStmt::VariableDeclaration(norm_var_decl(d)),
        SpecStmt::FunctionDeclaration { span, id, params, body } => SpecStmt::FunctionDeclaration {
            span,
            id,
            params,
            body: norm_stmts(body),
        },
        SpecStmt::Try { span, block, handler, finalizer } => SpecStmt::Try {
            span,
            block: norm_stmts(block),
            handler: match handler {
                None => None,
                Some(h) => Some(
                    SpecCatchClause { span: h.span, param: h.param, body: norm_stmts(h.body) },
                ),
            },
            finalizer: match finalizer {
                None => None,
                Some(f) => Some(norm_stmts(f)),
            },
        },
        SpecStmt::ForIn { span, left, right, body } => SpecStmt::ForIn {
            span,
            left: match left {
                SpecForInLeft::Target(_) => left,
                SpecForInLeft::Declaration(d) => SpecForInLeft::Declaration(norm_var_decl(d)),
            },
            right: norm_expr(right),
            body: Box::new(norm_stmt(*body)),
        },
    }
}

pub open spec fn norm_stmts(ss: Seq<SpecStmt>) -> Seq<SpecStmt>
    decreases ss,
{
    if ss.len() == 0 {
        ss
    } else {
        norm_stmts(ss.drop_last()).push(norm_stmt(ss.last()))
    }
}

pub open spec fn norm_program(p: SpecProgram) -> SpecProgram {
    SpecProgram { span: p.span, source_type: p.source_type, body: norm_stmts(p.body) }
}

/// What the pipeline hands back: the diagnostics collected during the run
/// and the two tables, moved out by value.
pub struct TransformerReturn {
    pub errors: Vec<Diagnostic>,
    pub symbols: SymbolTable,
    pub scopes: ScopeTree,
}

/// Options of the whole pipeline. The lowering passes are absent from this
/// composition, so the record carries only the minifier options the driver
/// shares with the compressor.
#[derive(Clone, Copy, PartialEq, Eq, Structural, Debug)]
pub struct TransformOptions {
    pub compress: CompressOptions,
}

/// The pipeline composer: wires the member passes into one visitor and runs
/// a single traversal over the program.
pub struct Transformer {
    source_path: String,
    options: TransformOptions,
}

impl Transformer {
    pub closed spec fn spec_options(&self) -> TransformOptions {
        self.options
    }

    pub closed spec fn spec_source_path(&self) -> Seq<char> {
        self.source_path@
    }

    pub fn new(source_path: String, options: &TransformOptions) -> (r: Transformer)
        ensures
            r.spec_options() == *options,
            r.spec_source_path() == source_path@,
    {
        Transformer { source_path, options: *options }
    }

    /// Runs the composed traversal over the program with the given tables.
    /// The arrow-body normalization is applied everywhere; the tables move
    /// through unchanged (this composition declares no pass that creates
    /// bindings), and no recoverable error arises.
    pub fn build_with_symbols_and_scopes(
        self,
        symbols: SymbolTable,
        scopes: ScopeTree,
        program: &mut Program,
    ) -> (r: TransformerReturn)
        requires
            arrow_wf_program(old(program)@),
        ensures
            final(program)@ == norm_program(old(program)@),
            r.symbols == symbols,
            r.scopes == scopes,
            r.errors@.len() == 0,
    {
        let mut body: Vec<Stmt> = Vec::new();
        core::mem::swap(&mut body, &mut program.body);
        proof {
            assert(view_stmts(body@) == view_program(*old(program)).body);
        }
        let b1 = exec_norm_stmts(body);
        program.body = b1;
        TransformerReturn { errors: Vec::new(), symbols, scopes }
    }
}

/// Executable form of the normalization over an expression.
fn exec_norm_expr(e: Expr) -> (r: Expr)
    requires
        arrow_wf_expr(e@),
    ensures
        r@ == norm_expr(e@),
    decreases e,
{
    let ghost e0 = e@;
    match e {
        Expr::Ident(i) => Expr::Ident(i),
        Expr::BooleanLit { span, value } => Expr::BooleanLit { span, value },
        Expr::NumberLit { span, value } => Expr::NumberLit { span, value },
        Expr::StringLit { span, value } => Expr::StringLit { span, value },
        Expr::NullLit { span } => Expr::NullLit { span },
        Expr::Update { span, op, prefix, target } => Expr::Update { span, op, prefix, target },
        Expr::Unary { span, op, argument } => Expr::Unary {
            span,
            op,
            argument: Box::new(exec_norm_expr(*argument)),
        },
        Expr::Binary { span, op, left, right } => {
            let l1 = exec_norm_expr(*left);
            let r1 = exec_norm_expr(*right);
            Expr::Binary { span, op, left: Box::new(l1), right: Box::new(r1) }
        },
        Expr::Call { span, callee, arguments } => {
            let c1 = exec_norm_expr(*callee);
            let a1 = exec_norm_exprs(arguments);
            Expr::Call { span, callee: Box::new(c1), arguments: a1 }
        },
        Expr::StaticMember { span, object, property, property_span } => {
            let o1 = exec_norm_expr(*object);
            Expr::StaticMember { span, object: Box::new(o1), property, property_span }
        },
        Expr::Assign { span, op, target, value } => {
            let v1 = exec_norm_expr(*value);
            Expr::Assign { span, op, target, value: Box::new(v1) }
        },
        Expr::Function { span, params, body } => {
            let b1 = exec_norm_stmts(body);
            Expr::Function { span, params, body: b1 }
        },
        Expr::Arrow { span, expression, params, body } => {
            let ghost vb = view_stmts(body@);
            proof {
                lemma_view_stmts_index(body@);
                lemma_norm_stmts_len(vb);
            }
            let mut b1 = exec_norm_stmts(body);
            let ghost b1v = view_stmts(b1@);
            let ghost b1seq0 = b1@;
            proof {
                lemma_view_stmts_index(b1seq0);
            }
            if expression && b1.len() > 1 {
                proof {
                    lemma_norm_stmts_last(vb);
                }
                let last = match b1.pop() {
                    Some(x) => x,
                    None => {
                        proof {
                            assert(false);
                        }
                        return Expr::Arrow { span, expression, params, body: b1 };
                    },
                };
                proof {
                    assert(last == b1seq0.last());
                    assert(view_stmt(last) == b1v.last());
                    assert(view_stmt(last) is Expression);
                    assert(b1@ =~= b1seq0.drop_last());
                    assert(view_stmts(b1@) =~= b1v.drop_last());
                }
                match last {
                    Stmt::Expression { expression: folded, .. } => {
                        let ghost folded0 = folded@;
                        let ghost before_push = b1@;
                        let ret = Stmt::Return { span: Span::sentinel(), argument: Some(folded) };
                        let ghost retv = view_stmt(ret);
                        b1.push(ret);
                        let r = Expr::Arrow { span, expression: false, params, body: b1 };
                        proof {
                            assert(b1@.drop_last() =~= before_push);
                            assert(b1@.last() == ret);
                            assert(retv == (SpecStmt::Return {
                                span: Span::spec_sentinel(),
                                argument: Some(folded0),
                            }));
                            assert(b1v.last()->expression == folded0);
                            assert(view_stmts(b1@) == view_stmts(before_push).push(retv));
                            assert(view_stmts(b1@) =~= b1v.drop_last().push(retv));
                            assert(r@ == norm_expr(e0));
                        }
                        r
                    },
                    _ => {
                        proof {
                            assert(false);
                        }
                        Expr::Arrow { span, expression, params, body: b1 }
                    },
                }
            } else {
                let r = Expr::Arrow { span, expression, params, body: b1 };
                proof {
                    assert(r@ == norm_expr(e0));
                }
                r
            }
        },
        Expr::ObjectLit { span, properties } => {
            let p1 = exec_norm_props(properties);
            Expr::ObjectLit { span, properties: p1 }
        },
    }
}

/// The last statement of a normalized nonempty list is the normalization of
/// the last statement, and normalization keeps a list's length and keeps an
/// expression statement an expression statement.
pub proof fn lemma_norm_stmts_last(ss: Seq<SpecStmt>)
    requires
        ss.len() > 0,
    ensures
        norm_stmts(ss).len() == ss.len(),
        norm_stmts(ss).last() == norm_stmt(ss.last()),
        norm_stmts(ss).drop_last() == norm_stmts(ss.drop_last()),
        ss.last() is Expression ==> norm_stmts(ss).last() is Expression,
    decreases ss,
{
    lemma_norm_stmts_len(ss);
    assert(norm_stmts(ss).drop_last() =~= norm_stmts(ss.drop_last()));
}

pub proof fn lemma_norm_stmts_len(ss: Seq<SpecStmt>)
    ensures
        norm_stmts(ss).len() == ss.len(),
    decreases ss,
{
    if ss.len() > 0 {
        lemma_norm_stmts_len(ss.drop_last());
    }
}

fn exec_norm_exprs(es: Vec<Expr>) -> (r: Vec<Expr>)
    requires
        arrow_wf_exprs(view_exprs(es@)),
    ensures
        view_exprs(r@) == norm_exprs(view_exprs(es@)),
    decreases es@,
{
    let mut es = es;
    let ghost es0 = es@;
    if es.len() == 0 {
        return es;
    }
    let last = match es.pop() {
        Some(x) => x,
        None => {
            proof {
                assert(false);
            }
            return es;
        },
    };
    proof {
        assert(es@ =~= es0.drop_last());
        assert(view_exprs(es0).drop_last() =~= view_exprs(es0.drop_last()));
        assert(view_exprs(es0).last() == view_expr(es0.last()));
        assert(view_exprs(es0).len() == es0.len()) by {
            crate::peephole::lemma_view_exprs_index(es0);
        }
    }
    let mut front = exec_norm_exprs(es);
    let ghost front0 = front@;
    let last1 = exec_norm_expr(last);
    front.push(last1);
    proof {
        assert(front@.drop_last() =~= front0);
        assert(front@.last() == last1);
    }
    front
}

fn exec_norm_props(ps: Vec<Property>) -> (r: Vec<Property>)
    requires
        arrow_wf_props(view_props(ps@)),
    ensures
        view_props(r@) == norm_props(view_props(ps@)),
    decreases ps@,
{
    let mut ps = ps;
    let ghost ps0 = ps@;
    if ps.len() == 0 {
        return ps;
    }
    let last = match ps.pop() {
        Some(x) => x,
        None => {
            proof {
                assert(false);
            }
            return ps;
        },
    };
    proof {
        assert(ps@ =~= ps0.drop_last());
        assert(view_props(ps0).drop_last() =~= view_props(ps0.drop_last()));
        assert(view_props(ps0).last() == crate::spec_ast::view_prop(ps0.last()));
    }
    let ghost key0 = last.key@;
    let ghost span0 = last.span;
    let mut front = exec_norm_props(ps);
    let ghost front0 = front@;
    let v1 = exec_norm_expr(last.value);
    front.push(Property { span: last.span, key: last.key, value: v1 });
    proof {
        assert(front@.drop_last() =~= front0);
        assert(crate::spec_ast::view_prop(front@.last()) == (SpecProperty {
            span: span0,
            key: key0,
            value: v1@,
        }));
        assert(view_props(front@) == view_props(front0).push(
            crate::spec_ast::view_prop(front@.last()),
        ));
    }
    front
}

#[verifier::rlimit(100)]
fn exec_norm_declarators(ds: Vec<VariableDeclarator>) -> (r: Vec<VariableDeclarator>)
    requires
        arrow_wf_declarators(view_declarators(ds@)),
    ensures
        view_declarators(r@) == norm_declarators(view_declarators(ds@)),
    decreases ds@,
{
    let mut ds = ds;
    let ghost ds0 = ds@;
    if ds.len() == 0 {
        return ds;
    }
    let last = match ds.pop() {
        Some(x) => x,
        None => {
            proof {
                assert(false);
            }
            return ds;
        },
    };
    proof {
        assert(ds@ =~= ds0.drop_last());
        assert(view_declarators(ds0).drop_last() =~= view_declarators(ds0.drop_last()));
        assert(view_declarators(ds0).last() == crate::spec_ast::view_declarator(ds0.last()));
    }
    let mut front = exec_norm_declarators(ds);
    let ghost front0 = front@;
    let ghost vd = view_declarators(ds0);
    proof {
        assert(vd.len() > 0);
        assert(view_declarators(front0) == norm_declarators(vd.drop_last()));
        assert(vd.last().init == match ds0.last().init {
            None => None::<SpecExpr>,
            Some(e) => Some(view_expr(e)),
        });
    }
    let d1 = match last.init {
        None => VariableDeclarator { span: last.span, id: last.id, init: None },
        Some(i) => {
            let i1 = exec_norm_expr(i);
            VariableDeclarator { span: last.span, id: last.id, init: Some(i1) }
        },
    };
    front.push(d1);
    proof {
        assert(front@.drop_last() =~= front0);
        assert(front@.last() == d1);
        assert(view_declarators(front@) == view_declarators(front0).push(
            crate::spec_ast::view_declarator(d1),
        ));
        assert(view_declarators(front@) == norm_declarators(vd));
    }
    front
}

fn exec_norm_var_decl(d: VariableDeclaration) -> (r: VariableDeclaration)
    requires
        arrow_wf_declarators(view_var_decl(d).declarations),
    ensures
        view_var_decl(r) == norm_var_decl(view_var_decl(d)),
    decreases d,
{
    let ds1 = exec_norm_declarators(d.declarations);
    VariableDeclaration { span: d.span, kind: d.kind, declarations: ds1 }
}

/// Executable form of the normalization over a statement.
#[verifier::rlimit(100)]
fn exec_norm_stmt(s: Stmt) -> (r: Stmt)
    requires
        arrow_wf_stmt(s@),
    ensures
        r@ == norm_stmt(s@),
    decreases s,
{
    match s {
        Stmt::Expression { span, expression } => {
            let e1 = exec_norm_expr(expression);
            Stmt::Expression { span, expression: e1 }
        },
        Stmt::Block { span, body } => {
            let b1 = exec_norm_stmts(body);
            Stmt::Block { span, body: b1 }
        },
        Stmt::Empty { span } => Stmt::Empty { span },
        Stmt::Return { span, argument } => {
            match argument {
                None => Stmt::Return { span, argument: None },
                Some(a) => {
                    let a1 = exec_norm_expr(a);
                    Stmt::Return { span, argument: Some(a1) }
                },
            }
        },
        Stmt::If { span, test, consequent, alternate } => {
            let t1 = exec_norm_expr(test);
            let c1 = exec_norm_stmt(*consequent);
            match alternate {
                None => Stmt::If { span, test: t1, consequent: Box::new(c1), alternate: None },
                Some(a) => {
                    let a1 = exec_norm_stmt(*a);
                    Stmt::If {
                        span,
                        test: t1,
                        consequent: Box::new(c1),
                        alternate: Some(Box::new(a1)),
                    }
                },
            }
        },
        Stmt::VariableDeclaration(d) => {
            let d1 = exec_norm_var_decl(d);
            Stmt::VariableDeclaration(d1)
        },
        Stmt::FunctionDeclaration { span, id, params, body } => {
            let b1 = exec_norm_stmts(body);
            Stmt::FunctionDeclaration { span, id, params, body: b1 }
        },
        Stmt::Try { span, block, handler, finalizer } => {
            let b1 = exec_norm_stmts(block);
            let h1 = match handler {
                None => None,
                Some(h) => {
                    let hb = exec_norm_stmts(h.body);
                    Some(crate::ast::CatchClause { span: h.span, param: h.param, body: hb })
                },
            };
            let f1 = match finalizer {
                None => None,
                Some(f) => Some(exec_norm_stmts(f)),
            };
            Stmt::Try { span, block: b1, handler: h1, finalizer: f1 }
        },
        Stmt::ForIn { span, left, right, body } => {
            proof {
                reveal_with_fuel(view_stmt, 3);
            }
            let l1 = match left {
                ForInLeft::Target(t) => ForInLeft::Target(t),
                ForInLeft::Declaration(d) => ForInLeft::Declaration(exec_norm_var_decl(d)),
            };
            let r1 = exec_norm_expr(right);
            let b1 = exec_norm_stmt(*body);
            Stmt::ForIn { span, left: l1, right: r1, body: Box::new(b1) }
        },
    }
}

fn exec_norm_stmts(ss: Vec<Stmt>) -> (r: Vec<Stmt>)
    requires
        arrow_wf_stmts(view_stmts(ss@)),
    ensures
        view_stmts(r@) == norm_stmts(view_stmts(ss@)),
    decreases ss@,
{
    let mut ss = ss;
    let ghost ss0 = ss@;
    if ss.len() == 0 {
        return ss;
    }
    let last = match ss.pop() {
        Some(x) => x,
        None => {
            proof {
                assert(false);
            }
            return ss;
        },
    };
    proof {
        assert(ss@ =~= ss0.drop_last());
        assert(view_stmts(ss0).drop_last() =~= view_stmts(ss0.drop_last()));
        assert(view_stmts(ss0).last() == view_stmt(ss0.last()));
        assert(view_stmts(ss0).len() == ss0.len()) by {
            lemma_view_stmts_index(ss0);
        }
    }
    let mut front = exec_norm_stmts(ss);
    let ghost front0 = front@;
    let last1 = exec_norm_stmt(last);
    front.push(last1);
    proof {
        assert(front@.drop_last() =~= front0);
        assert(front@.last() == last1);
    }
    front
}

} // verus!
