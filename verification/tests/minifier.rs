// Scenario tests for the peephole minifier pass. Each test builds the
// program in AST form, runs the pass, and compares against the expected
// AST; the JS source each tree stands for is quoted alongside.

use jstransform::ast::{
    AssignOp, AssignTarget, BindingIdent, BinaryOp, CatchClause, Expr, ForInLeft, IdentRef,
    Program, Property, SourceType, Span, Stmt, UnaryOp, UpdateOp, VarKind, VariableDeclaration,
    VariableDeclarator,
};
use jstransform::options::CompressOptions;
use jstransform::peephole::PeepholeSubstituteAlternateSyntax;

fn sp(n: u32) -> Span {
    Span { start: n, end: n + 1 }
}

fn sent() -> Span {
    Span { start: 0, end: 0 }
}

fn ident(n: u32, name: &str, symbol: Option<u32>) -> Expr {
    Expr::Ident(IdentRef { span: sp(n), name: name.to_string(), symbol })
}

fn binding(n: u32, name: &str, symbol: u32) -> BindingIdent {
    BindingIdent { span: sp(n), name: name.to_string(), symbol: Some(symbol) }
}

fn num(n: u32, value: u64) -> Expr {
    Expr::NumberLit { span: sp(n), value }
}

fn boolean(n: u32, value: bool) -> Expr {
    Expr::BooleanLit { span: sp(n), value }
}

fn string_lit(n: u32, value: &str) -> Expr {
    Expr::StringLit { span: sp(n), value: value.to_string() }
}

fn void_of(n: u32, e: Expr) -> Expr {
    Expr::Unary { span: sp(n), op: UnaryOp::Void, argument: Box::new(e) }
}

fn void_zero_canonical() -> Expr {
    Expr::Unary {
        span: sent(),
        op: UnaryOp::Void,
        argument: Box::new(Expr::NumberLit { span: sent(), value: 0 }),
    }
}

fn not_of(n: u32, e: Expr) -> Expr {
    Expr::Unary { span: sp(n), op: UnaryOp::LogicalNot, argument: Box::new(e) }
}

fn not_num_canonical(value: u64) -> Expr {
    Expr::Unary {
        span: sent(),
        op: UnaryOp::LogicalNot,
        argument: Box::new(Expr::NumberLit { span: sent(), value }),
    }
}

fn ret(n: u32, argument: Option<Expr>) -> Stmt {
    Stmt::Return { span: sp(n), argument }
}

fn expr_stmt(n: u32, e: Expr) -> Stmt {
    Stmt::Expression { span: sp(n), expression: e }
}

fn call(n: u32, callee: Expr, arguments: Vec<Expr>) -> Expr {
    Expr::Call { span: sp(n), callee: Box::new(callee), arguments }
}

fn func_decl(n: u32, name_sym: (&str, u32), params: Vec<BindingIdent>, body: Vec<Stmt>) -> Stmt {
    Stmt::FunctionDeclaration {
        span: sp(n),
        id: BindingIdent { span: sp(n + 100), name: name_sym.0.to_string(), symbol: Some(name_sym.1) },
        params,
        body,
    }
}

fn var_decl(n: u32, kind: VarKind, decls: Vec<VariableDeclarator>) -> Stmt {
    Stmt::VariableDeclaration(VariableDeclaration { span: sp(n), kind, declarations: decls })
}

fn declarator(n: u32, name: &str, symbol: u32, init: Option<Expr>) -> VariableDeclarator {
    VariableDeclarator { span: sp(n), id: binding(n + 100, name, symbol), init }
}

fn program(body: Vec<Stmt>) -> Program {
    Program { span: sp(9000), source_type: SourceType { module: false }, body }
}

fn run(input: Program) -> (Program, bool) {
    let mut pass = PeepholeSubstituteAlternateSyntax::new(CompressOptions::default());
    let mut p = input;
    pass.build(&mut p);
    (p, pass.changed())
}

fn check(input: Program, expected: Program) {
    let (got, _) = run(input);
    assert_eq!(got, expected);
}

fn check_same(input: Program, same: Program) {
    let (got, changed) = run(input);
    assert_eq!(got, same);
    assert!(!changed);
}

#[test]
fn fold_return_result() {
    // function f(){return !1;} => function f(){return !1}
    check(
        program(vec![func_decl(1, ("f", 0), vec![], vec![ret(2, Some(not_of(3, num(4, 1))))])]),
        program(vec![func_decl(1, ("f", 0), vec![], vec![ret(2, Some(not_of(3, num(4, 1))))])]),
    );
    // function f(){return null;} => function f(){return null}
    check(
        program(vec![func_decl(1, ("f", 0), vec![], vec![ret(
            2,
            Some(Expr::NullLit { span: sp(3) }),
        )])]),
        program(vec![func_decl(1, ("f", 0), vec![], vec![ret(
            2,
            Some(Expr::NullLit { span: sp(3) }),
        )])]),
    );
    // function f(){return void 0;} => function f(){return}
    check(
        program(vec![func_decl(1, ("f", 0), vec![], vec![ret(2, Some(void_of(3, num(4, 0))))])]),
        program(vec![func_decl(1, ("f", 0), vec![], vec![ret(2, None)])]),
    );
    // function f(){return void foo();} => function f(){return void foo()}
    check(
        program(vec![func_decl(1, ("f", 0), vec![], vec![ret(
            2,
            Some(void_of(3, call(4, ident(5, "foo", None), vec![]))),
        )])]),
        program(vec![func_decl(1, ("f", 0), vec![], vec![ret(
            2,
            Some(void_of(3, call(4, ident(5, "foo", None), vec![]))),
        )])]),
    );
    // function f(){return undefined;} => function f(){return}
    check(
        program(vec![func_decl(1, ("f", 0), vec![], vec![ret(
            2,
            Some(ident(3, "undefined", None)),
        )])]),
        program(vec![func_decl(1, ("f", 0), vec![], vec![ret(2, None)])]),
    );
    // function f(){if(a()){return undefined;}} => function f(){if(a())return}
    check(
        program(vec![func_decl(1, ("f", 0), vec![], vec![Stmt::If {
            span: sp(2),
            test: call(3, ident(4, "a", None), vec![]),
            consequent: Box::new(Stmt::Block {
                span: sp(5),
                body: vec![ret(6, Some(ident(7, "undefined", None)))],
            }),
            alternate: None,
        }])]),
        program(vec![func_decl(1, ("f", 0), vec![], vec![Stmt::If {
            span: sp(2),
            test: call(3, ident(4, "a", None), vec![]),
            consequent: Box::new(ret(6, None)),
            alternate: None,
        }])]),
    );
}

#[test]
fn undefined() {
    // var x = undefined => var x
    check(
        program(vec![var_decl(1, VarKind::Var, vec![declarator(
            2,
            "x",
            0,
            Some(ident(3, "undefined", None)),
        )])]),
        program(vec![var_decl(1, VarKind::Var, vec![declarator(2, "x", 0, None)])]),
    );
    // var undefined = 1;function f() {var undefined=2;var x;} => unchanged
    let shadowed = || {
        program(vec![
            var_decl(1, VarKind::Var, vec![declarator(2, "undefined", 0, Some(num(3, 1)))]),
            func_decl(4, ("f", 1), vec![], vec![
                var_decl(5, VarKind::Var, vec![declarator(6, "undefined", 2, Some(num(7, 2)))]),
                var_decl(8, VarKind::Var, vec![declarator(9, "x", 3, None)]),
            ]),
        ])
    };
    check_same(shadowed(), shadowed());
    // function f(undefined) {} => function f(undefined){}
    check(
        program(vec![func_decl(1, ("f", 0), vec![binding(2, "undefined", 1)], vec![])]),
        program(vec![func_decl(1, ("f", 0), vec![binding(2, "undefined", 1)], vec![])]),
    );
    // try {} catch(undefined) {} => try{}catch(undefined){}
    let try_catch = || {
        program(vec![Stmt::Try {
            span: sp(1),
            block: vec![],
            handler: Some(CatchClause {
                span: sp(2),
                param: Some(binding(3, "undefined", 0)),
                body: vec![],
            }),
            finalizer: None,
        }])
    };
    check(try_catch(), try_catch());
    // for (undefined in {}) {} => for(undefined in {}){}
    let for_in = || {
        program(vec![Stmt::ForIn {
            span: sp(1),
            left: ForInLeft::Target(AssignTarget {
                span: sp(2),
                name: "undefined".to_string(),
                symbol: None,
            }),
            right: Expr::ObjectLit { span: sp(3), properties: vec![] },
            body: Box::new(Stmt::Block { span: sp(4), body: vec![] }),
        }])
    };
    check(for_in(), for_in());
    // undefined++ => undefined++
    let update = || {
        program(vec![expr_stmt(1, Expr::Update {
            span: sp(2),
            op: UpdateOp::Increment,
            prefix: false,
            target: AssignTarget { span: sp(3), name: "undefined".to_string(), symbol: None },
        })])
    };
    check(update(), update());
    // undefined += undefined => undefined+=void 0
    check(
        program(vec![expr_stmt(1, Expr::Assign {
            span: sp(2),
            op: AssignOp::AdditionAssign,
            target: AssignTarget { span: sp(3), name: "undefined".to_string(), symbol: None },
            value: Box::new(ident(4, "undefined", None)),
        })]),
        program(vec![expr_stmt(1, Expr::Assign {
            span: sp(2),
            op: AssignOp::AdditionAssign,
            target: AssignTarget { span: sp(3), name: "undefined".to_string(), symbol: None },
            value: Box::new(void_zero_canonical()),
        })]),
    );
    // (function(undefined) { let x = typeof undefined; })() => unchanged
    let iife = || {
        program(vec![expr_stmt(1, call(
            2,
            Expr::Function {
                span: sp(3),
                params: vec![binding(4, "undefined", 0)],
                body: vec![var_decl(5, VarKind::Let, vec![declarator(
                    6,
                    "x",
                    1,
                    Some(Expr::Unary {
                        span: sp(7),
                        op: UnaryOp::Typeof,
                        argument: Box::new(ident(8, "undefined", Some(0))),
                    }),
                )])],
            },
            vec![],
        ))])
    };
    check_same(iife(), iife());
}

#[test]
fn shadowed_undefined_in_return_is_kept() {
    // function f(undefined){ return undefined; } is unchanged: the argument
    // resolves to the parameter, not to the intrinsic, so dropping it would
    // change what the function returns.
    let shadowed_return = || {
        program(vec![func_decl(1, ("f", 0), vec![binding(2, "undefined", 1)], vec![ret(
            3,
            Some(ident(4, "undefined", Some(1))),
        )])])
    };
    check_same(shadowed_return(), shadowed_return());
}

#[test]
fn booleans_rewrite() {
    // if (true) {} => if (!0) {}
    check(
        program(vec![Stmt::If {
            span: sp(1),
            test: boolean(2, true),
            consequent: Box::new(Stmt::Block { span: sp(3), body: vec![] }),
            alternate: None,
        }]),
        program(vec![Stmt::If {
            span: sp(1),
            test: not_num_canonical(0),
            consequent: Box::new(Stmt::Block { span: sp(3), body: vec![] }),
            alternate: None,
        }]),
    );
    // false => !1
    check(
        program(vec![expr_stmt(1, boolean(2, false))]),
        program(vec![expr_stmt(1, not_num_canonical(1))]),
    );
}

#[test]
fn booleans_suppressed_in_define_export() {
    // Object.defineProperty(exports,'Foo',{enumerable:true,get:function(){return x}})
    // keeps the `true` inside the descriptor.
    let define = || {
        program(vec![expr_stmt(1, call(
            2,
            Expr::StaticMember {
                span: sp(3),
                object: Box::new(ident(4, "Object", None)),
                property: "defineProperty".to_string(),
                property_span: sp(5),
            },
            vec![
                ident(6, "exports", None),
                string_lit(7, "Foo"),
                Expr::ObjectLit {
                    span: sp(8),
                    properties: vec![
                        Property { span: sp(9), key: "enumerable".to_string(), value: boolean(10, true) },
                        Property {
                            span: sp(11),
                            key: "get".to_string(),
                            value: Expr::Function {
                                span: sp(12),
                                params: vec![],
                                body: vec![ret(13, Some(ident(14, "x", None)))],
                            },
                        },
                    ],
                },
            ],
        ))])
    };
    check(define(), define());
}

#[test]
fn typeof_undefined_rewrite() {
    // typeof x == "undefined" => typeof x > "u"
    let rewritten = || {
        program(vec![expr_stmt(1, Expr::Binary {
            span: sp(2),
            op: BinaryOp::GreaterThan,
            left: Box::new(Expr::Unary {
                span: sent(),
                op: UnaryOp::Typeof,
                argument: Box::new(ident(4, "x", None)),
            }),
            right: Box::new(Expr::StringLit { span: sent(), value: "u".to_string() }),
        })])
    };
    check(
        program(vec![expr_stmt(1, Expr::Binary {
            span: sp(2),
            op: BinaryOp::Equality,
            left: Box::new(Expr::Unary {
                span: sp(3),
                op: UnaryOp::Typeof,
                argument: Box::new(ident(4, "x", None)),
            }),
            right: Box::new(string_lit(5, "undefined")),
        })]),
        rewritten(),
    );
    // the commutative form: "undefined" == typeof x
    check(
        program(vec![expr_stmt(1, Expr::Binary {
            span: sp(2),
            op: BinaryOp::Equality,
            left: Box::new(string_lit(5, "undefined")),
            right: Box::new(Expr::Unary {
                span: sp(3),
                op: UnaryOp::Typeof,
                argument: Box::new(ident(4, "x", None)),
            }),
        })]),
        rewritten(),
    );
    // != is not rewritten
    let unequal = || {
        program(vec![expr_stmt(1, Expr::Binary {
            span: sp(2),
            op: BinaryOp::Inequality,
            left: Box::new(Expr::Unary {
                span: sp(3),
                op: UnaryOp::Typeof,
                argument: Box::new(ident(4, "x", None)),
            }),
            right: Box::new(string_lit(5, "undefined")),
        })])
    };
    check(unequal(), unequal());
}

#[test]
fn block_unwrap() {
    // { { return 1; } } => return 1;
    check(
        program(vec![Stmt::Block {
            span: sp(1),
            body: vec![Stmt::Block { span: sp(2), body: vec![ret(3, Some(num(4, 1)))] }],
        }]),
        program(vec![ret(3, Some(num(4, 1)))]),
    );
    // { var x = 1; } is unchanged: the block holds a declaration.
    let decl_block = || {
        program(vec![Stmt::Block {
            span: sp(1),
            body: vec![var_decl(2, VarKind::Var, vec![declarator(3, "x", 0, Some(num(4, 1)))])],
        }])
    };
    check(decl_block(), decl_block());
}

#[test]
fn const_initializer_kept() {
    // const x = undefined keeps its initializer, but folds it to void 0.
    check(
        program(vec![var_decl(1, VarKind::Const, vec![declarator(
            2,
            "x",
            0,
            Some(ident(3, "undefined", None)),
        )])]),
        program(vec![var_decl(1, VarKind::Const, vec![declarator(
            2,
            "x",
            0,
            Some(void_zero_canonical()),
        )])]),
    );
}

#[test]
fn second_pass_is_stable() {
    // Running the pass on its own output changes nothing and reports no
    // change: the `changed` flag is stable after one additional pass.
    let input = program(vec![
        Stmt::Block {
            span: sp(1),
            body: vec![Stmt::Block { span: sp(2), body: vec![ret(3, Some(ident(4, "undefined", None)))] }],
        },
        var_decl(5, VarKind::Var, vec![declarator(6, "x", 0, Some(ident(7, "undefined", None)))]),
        expr_stmt(8, boolean(9, true)),
    ]);
    let (once, first_changed) = run(input);
    assert!(first_changed);
    let expected = program(vec![
        ret(3, None),
        var_decl(5, VarKind::Var, vec![declarator(6, "x", 0, None)]),
        expr_stmt(8, not_num_canonical(0)),
    ]);
    assert_eq!(once, expected);
    let (twice, second_changed) = run(expected);
    assert_eq!(twice, once);
    assert!(!second_changed);
}

#[test]
fn disabled_switches_suppress_rewrites() {
    let mut pass = PeepholeSubstituteAlternateSyntax::new(CompressOptions {
        booleans: false,
        typeofs: false,
        loops: false,
    });
    let mut p = program(vec![
        expr_stmt(1, boolean(2, true)),
        expr_stmt(3, Expr::Binary {
            span: sp(4),
            op: BinaryOp::StrictEquality,
            left: Box::new(Expr::Unary {
                span: sp(5),
                op: UnaryOp::Typeof,
                argument: Box::new(ident(6, "x", None)),
            }),
            right: Box::new(string_lit(7, "undefined")),
        }),
    ]);
    let expected = program(vec![
        expr_stmt(1, boolean(2, true)),
        expr_stmt(3, Expr::Binary {
            span: sp(4),
            op: BinaryOp::StrictEquality,
            left: Box::new(Expr::Unary {
                span: sp(5),
                op: UnaryOp::Typeof,
                argument: Box::new(ident(6, "x", None)),
            }),
            right: Box::new(string_lit(7, "undefined")),
        }),
    ]);
    pass.build(&mut p);
    assert_eq!(p, expected);
    assert!(!pass.changed());
}
