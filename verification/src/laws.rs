//! Proved laws of the passes.
//!
//! Each public proof function states one guarantee over the pass semantics:
//! for the peephole minifier (`subst_*`), the shadowing guard of the
//! `undefined` rewrite, the AnnexB safety of the block unwrap, and span
//! preservation; for the transformer's arrow normalization (`norm_*`),
//! idempotence of a whole run and span preservation, including the span of
//! the one statement the normalization synthesizes.

use vstd::prelude::*;

use crate::ast::Span;
use crate::options::{CompressOptions, PassState};
use crate::peephole::{subst_expr, subst_stmt, subst_stmts};
use crate::spec_ast::{
    is_declaration, SpecBindingIdent, SpecExpr, SpecForInLeft, SpecIdentRef, SpecProgram,
    SpecProperty, SpecStmt, SpecVariableDeclarator,
};
use crate::transformer::{
    arrow_wf_declarators, arrow_wf_expr, arrow_wf_exprs, arrow_wf_program, arrow_wf_props,
    arrow_wf_stmt, arrow_wf_stmts, lemma_norm_stmts_last, lemma_norm_stmts_len, norm_declarators,
    norm_expr, norm_exprs, norm_program, norm_props, norm_stmt, norm_stmts, norm_var_decl,
    normalize_arrow,
};

verus! {

/// Shadowing safety: the `undefined` to `void 0` rewrite never fires for a
/// reference that resolves to a binding named `undefined`. Such a reference
/// passes through the pass untouched, whatever the options and state.
pub proof fn lemma_shadowed_undefined_untouched(
    i: SpecIdentRef,
    in_expr_stmt: bool,
    o: CompressOptions,
    st: PassState,
)
    requires
        i.name == "undefined"@,
        i.symbol is Some,
    ensures
        subst_expr(SpecExpr::Ident(i), in_expr_stmt, o, st) == (SpecExpr::Ident(i), st),
{
}

/// Only a reference that resolves to the intrinsic — one without a symbol —
/// is rewritten at all; any resolved reference, whatever its name, is kept.
pub proof fn lemma_resolved_reference_kept(
    i: SpecIdentRef,
    in_expr_stmt: bool,
    o: CompressOptions,
    st: PassState,
)
    requires
        i.symbol is Some,
    ensures
        subst_expr(SpecExpr::Ident(i), in_expr_stmt, o, st) == (SpecExpr::Ident(i), st),
{
}

/// The traversal of a statement list keeps its length: statements are
/// rewritten in place, never inserted or removed.
pub proof fn lemma_subst_stmts_len(ss: Seq<SpecStmt>, o: CompressOptions, st: PassState)
    ensures
        subst_stmts(ss, o, st).0.len() == ss.len(),
    decreases ss,
{
    if ss.len() > 0 {
        lemma_subst_stmts_len(ss.drop_last(), o, st);
    }
}

/// AnnexB block-unwrap safety: a block whose body is not exactly one
/// non-declaration statement is never unwrapped — in particular, no block
/// containing a declaration statement is. The result is a block again, with
/// the same span and one rewritten statement per original statement.
pub proof fn lemma_block_with_declaration_kept(
    span: Span,
    body: Seq<SpecStmt>,
    o: CompressOptions,
    st: PassState,
)
    requires
        !(body.len() == 1 && !is_declaration(body[0])),
    ensures
        ({
            let (r, _) = subst_stmt(SpecStmt::Block { span, body }, o, st);
            &&& r is Block
            &&& r->Block_span == span
            &&& r->Block_body.len() == body.len()
        }),
{
    lemma_subst_stmts_len(body, o, st);
}

/// The span of an expression node.
pub open spec fn span_of_expr(e: SpecExpr) -> Span {
    match e {
        SpecExpr::Ident(i) => i.span,
        SpecExpr::BooleanLit { span, .. } => span,
        SpecExpr::NumberLit { span, .. } => span,
        SpecExpr::StringLit { span, .. } => span,
        SpecExpr::NullLit { span } => span,
        SpecExpr::Unary { span, .. } => span,
        SpecExpr::Binary { span, .. } => span,
        SpecExpr::Call { span, .. } => span,
        SpecExpr::StaticMember { span, .. } => span,
        SpecExpr::Assign { span, .. } => span,
        SpecExpr::Update { span, .. } => span,
        SpecExpr::Function { span, .. } => span,
        SpecExpr::Arrow { span, .. } => span,
        SpecExpr::ObjectLit { span, .. } => span,
    }
}

/// The span of a statement node.
pub open spec fn span_of_stmt(s: SpecStmt) -> Span {
    match s {
        SpecStmt::Expression { span, .. } => span,
        SpecStmt::Block { span, .. } => span,
        SpecStmt::Empty { span } => span,
        SpecStmt::Return { span, .. } => span,
        SpecStmt::If { span, .. } => span,
        SpecStmt::VariableDeclaration(d) => d.span,
        SpecStmt::FunctionDeclaration { span, .. } => span,
        SpecStmt::Try { span, .. } => span,
        SpecStmt::ForIn { span, .. } => span,
    }
}

/// Span preservation for expressions: the pass either keeps a node's span
/// (nodes unchanged in shape, and the rewritten `typeof` comparison, which
/// replaces the construct in place) or gives the node the sentinel span
/// (nodes synthesized out of thin air: `void 0`, `!0`, `!1`).
pub proof fn lemma_expr_span_preserved(
    e: SpecExpr,
    in_expr_stmt: bool,
    o: CompressOptions,
    st: PassState,
)
    ensures
        ({
            let (r, _) = subst_expr(e, in_expr_stmt, o, st);
            span_of_expr(r) == span_of_expr(e) || span_of_expr(r) == Span::spec_sentinel()
        }),
{
}

/// Span preservation for statements: every statement that is not an
/// unwrapped block keeps its span. (An unwrapped block is replaced by the
/// statement it contained, which in turn keeps its own span.)
pub proof fn lemma_stmt_span_preserved(s: SpecStmt, o: CompressOptions, st: PassState)
    requires
        !(s is Block),
    ensures
        span_of_stmt(subst_stmt(s, o, st).0) == span_of_stmt(s),
{
    reveal_with_fuel(subst_stmt, 2);
    match s {
        SpecStmt::Expression { .. } => {},
        SpecStmt::Block { .. } => {},
        SpecStmt::Empty { .. } => {},
        SpecStmt::Return { argument, .. } => {},
        SpecStmt::If { alternate, .. } => {},
        SpecStmt::VariableDeclaration(_) => {},
        SpecStmt::FunctionDeclaration { .. } => {},
        SpecStmt::Try { handler, finalizer, .. } => {},
        SpecStmt::ForIn { left, .. } => {},
    }
}

/// Span preservation for the arrow normalization, expression level: every
/// expression keeps its span; the converted arrow replaces the construct in
/// place and keeps the arrow's span.
pub proof fn lemma_norm_expr_span_preserved(e: SpecExpr)
    ensures
        span_of_expr(norm_expr(e)) == span_of_expr(e),
{
}

/// Span preservation for the arrow normalization, statement level.
pub proof fn lemma_norm_stmt_span_preserved(s: SpecStmt)
    ensures
        span_of_stmt(norm_stmt(s)) == span_of_stmt(s),
{
    reveal_with_fuel(norm_stmt, 2);
}

/// The one node the arrow normalization synthesizes — the trailing `return`
/// of a converted arrow — carries the sentinel span; every retained
/// statement is kept as it is, and the folded expression is the one the
/// trailing expression statement held.
pub proof fn lemma_normalize_arrow_synthesized(
    span: Span,
    expression: bool,
    params: Seq<SpecBindingIdent>,
    body: Seq<SpecStmt>,
)
    requires
        expression,
        body.len() > 1,
        body.last() is Expression,
    ensures
        ({
            let r = normalize_arrow(span, expression, params, body);
            &&& r->Arrow_span == span
            &&& !r->Arrow_expression
            &&& r->Arrow_body.len() == body.len()
            &&& r->Arrow_body.drop_last() == body.drop_last()
            &&& r->Arrow_body.last() == (SpecStmt::Return {
                span: Span::spec_sentinel(),
                argument: Some(body.last()->expression),
            })
        }),
{
    let r = normalize_arrow(span, expression, params, body);
    assert(r->Arrow_body.drop_last() =~= body.drop_last());
}

/// Idempotence of the arrow normalization over an expression: a second run
/// on its own output changes nothing.
pub proof fn lemma_norm_expr_idem(e: SpecExpr)
    requires
        arrow_wf_expr(e),
    ensures
        norm_expr(norm_expr(e)) == norm_expr(e),
    decreases e,
{
    match e {
        SpecExpr::Ident(_) => {},
        SpecExpr::BooleanLit { .. } => {},
        SpecExpr::NumberLit { .. } => {},
        SpecExpr::StringLit { .. } => {},
        SpecExpr::NullLit { .. } => {},
        SpecExpr::Update { .. } => {},
        SpecExpr::Unary { argument, .. } => {
            lemma_norm_expr_idem(*argument);
        },
        SpecExpr::Binary { left, right, .. } => {
            lemma_norm_expr_idem(*left);
            lemma_norm_expr_idem(*right);
        },
        SpecExpr::Call { callee, arguments, .. } => {
            lemma_norm_expr_idem(*callee);
            lemma_norm_exprs_idem(arguments);
        },
        SpecExpr::StaticMember { object, .. } => {
            lemma_norm_expr_idem(*object);
        },
        SpecExpr::Assign { value, .. } => {
            lemma_norm_expr_idem(*value);
        },
        SpecExpr::Function { body, .. } => {
            lemma_norm_stmts_idem(body);
        },
        SpecExpr::Arrow { span, expression, params, body } => {
            let b = norm_stmts(body);
            lemma_norm_stmts_len(body);
            if expression && b.len() > 1 {
                assert(arrow_wf_stmts(body));
                assert(arrow_wf_stmts(body.drop_last()) && arrow_wf_stmt(body.last())) by {
                    reveal_with_fuel(arrow_wf_stmts, 2);
                }
                assert(body.last() is Expression);
                assert(arrow_wf_expr(body.last()->expression)) by {
                    reveal_with_fuel(arrow_wf_stmt, 2);
                }
                lemma_norm_stmts_last(body);
                lemma_norm_stmts_idem(body.drop_last());
                let folded = b.last()->expression;
                let ret = SpecStmt::Return {
                    span: Span::spec_sentinel(),
                    argument: Some(folded),
                };
                let b2 = b.drop_last().push(ret);
                assert(body.last() is Expression);
                lemma_norm_expr_idem(body.last()->expression);
                assert(folded == norm_expr(body.last()->expression));
                assert(norm_expr(folded) == folded);
                assert(b2.drop_last() =~= b.drop_last());
                assert(b.drop_last() == norm_stmts(body.drop_last()));
                assert(norm_stmts(b2.drop_last()) == b.drop_last());
                assert(norm_stmt(b2.last()) == ret);
                assert(norm_stmts(b2) =~= b2);
                assert(norm_expr(norm_expr(e)) == norm_expr(e));
            } else {
                lemma_norm_stmts_idem(body);
                assert(norm_stmts(b) == b);
                assert(norm_expr(norm_expr(e)) == norm_expr(e));
            }
        },
        SpecExpr::ObjectLit { properties, .. } => {
            lemma_norm_props_idem(properties);
        },
    }
}

pub proof fn lemma_norm_exprs_idem(es: Seq<SpecExpr>)
    requires
        arrow_wf_exprs(es),
    ensures
        norm_exprs(norm_exprs(es)) == norm_exprs(es),
    decreases es,
{
    if es.len() > 0 {
        lemma_norm_exprs_idem(es.drop_last());
        lemma_norm_expr_idem(es.last());
        let r = norm_exprs(es);
        assert(r.drop_last() =~= norm_exprs(es.drop_last()));
        assert(norm_exprs(r) =~= r);
    }
}

pub proof fn lemma_norm_props_idem(ps: Seq<SpecProperty>)
    requires
        arrow_wf_props(ps),
    ensures
        norm_props(norm_props(ps)) == norm_props(ps),
    decreases ps,
{
    if ps.len() > 0 {
        lemma_norm_props_idem(ps.drop_last());
        lemma_norm_expr_idem(ps.last().value);
        let r = norm_props(ps);
        assert(r.drop_last() =~= norm_props(ps.drop_last()));
        assert(norm_props(r) =~= r);
    }
}

pub proof fn lemma_norm_declarators_idem(ds: Seq<SpecVariableDeclarator>)
    requires
        arrow_wf_declarators(ds),
    ensures
        norm_declarators(norm_declarators(ds)) == norm_declarators(ds),
    decreases ds,
{
    if ds.len() > 0 {
        lemma_norm_declarators_idem(ds.drop_last());
        match ds.last().init {
            None => {},
            Some(i) => {
                lemma_norm_expr_idem(i);
            },
        }
        let r = norm_declarators(ds);
        assert(r.drop_last() =~= norm_declarators(ds.drop_last()));
        assert(norm_declarators(r) =~= r);
    }
}

/// Idempotence of the arrow normalization over a statement.
pub proof fn lemma_norm_stmt_idem(s: SpecStmt)
    requires
        arrow_wf_stmt(s),
    ensures
        norm_stmt(norm_stmt(s)) == norm_stmt(s),
    decreases s,
{
    reveal_with_fuel(norm_stmt, 3);
    match s {
        SpecStmt::Expression { expression, .. } => {
            lemma_norm_expr_idem(expression);
        },
        SpecStmt::Block { body, .. } => {
            lemma_norm_stmts_idem(body);
        },
        SpecStmt::Empty { .. } => {},
        SpecStmt::Return { argument, .. } => {
            match argument {
                None => {},
                Some(a) => {
                    lemma_norm_expr_idem(a);
                },
            }
        },
        SpecStmt::If { test, consequent, alternate, .. } => {
            lemma_norm_expr_idem(test);
            lemma_norm_stmt_idem(*consequent);
            match alternate {
                None => {},
                Some(a) => {
                    lemma_norm_stmt_idem(*a);
                },
            }
        },
        SpecStmt::VariableDeclaration(d) => {
            lemma_norm_declarators_idem(d.declarations);
        },
        SpecStmt::FunctionDeclaration { body, .. } => {
            lemma_norm_stmts_idem(body);
        },
        SpecStmt::Try { block, handler, finalizer, .. } => {
            lemma_norm_stmts_idem(block);
            match handler {
                None => {},
                Some(h) => {
                    lemma_norm_stmts_idem(h.body);
                },
            }
            match finalizer {
                None => {},
                Some(f) => {
                    lemma_norm_stmts_idem(f);
                },
            }
        },
        SpecStmt::ForIn { left, right, body, .. } => {
            match left {
                SpecForInLeft::Target(_) => {},
                SpecForInLeft::Declaration(d) => {
                    lemma_norm_declarators_idem(d.declarations);
                },
            }
            lemma_norm_expr_idem(right);
            lemma_norm_stmt_idem(*body);
        },
    }
}

pub proof fn lemma_norm_stmts_idem(ss: Seq<SpecStmt>)
    requires
        arrow_wf_stmts(ss),
    ensures
        norm_stmts(norm_stmts(ss)) == norm_stmts(ss),
    decreases ss,
{
    if ss.len() > 0 {
        lemma_norm_stmts_idem(ss.drop_last());
        lemma_norm_stmt_idem(ss.last());
        let r = norm_stmts(ss);
        assert(r.drop_last() =~= norm_stmts(ss.drop_last()));
        assert(norm_stmts(r) =~= r);
    }
}

/// Idempotence of the transformer run: running the composed traversal on its
/// own output changes nothing. Together with the pipeline's contract — the
/// program becomes `norm_program`, the tables move through unchanged and no
/// error arises — a second run with the same options returns program and
/// tables unchanged.
pub proof fn lemma_transform_idempotent(p: SpecProgram)
    requires
        arrow_wf_program(p),
    ensures
        norm_program(norm_program(p)) == norm_program(p),
{
    lemma_norm_stmts_idem(p.body);
}


/// The pass keeps a statement's being a declaration: a declaration is never
/// rewritten into a non-declaration nor the reverse, which is what makes the
/// AnnexB guard of the block unwrap meaningful across nested rewrites.
pub proof fn lemma_subst_decl_preserved(s: SpecStmt, o: CompressOptions, st: PassState)
    ensures
        is_declaration(subst_stmt(s, o, st).0) == is_declaration(s),
    decreases s,
{
    match s {
        SpecStmt::Block { body, .. } => {
            if body.len() == 1 && !is_declaration(body[0]) {
                lemma_subst_decl_preserved(
                    body[0],
                    o,
                    PassState { changed: true, in_define_export: st.in_define_export },
                );
            }
        },
        _ => {},
    }
}

} // verus!
