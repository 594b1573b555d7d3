// Tests of the transformer composer's arrow-body normalization and of the
// module-lexer record shapes.

use jstransform::ast::{
    BindingIdent, Expr, IdentRef, Program, SourceType, Span, Stmt,
};
use jstransform::module_lexer::{
    module_lexer, ExportSpecifier, ImportSpecifier, ImportType, ModuleLexerImportSpecifier,
};
use jstransform::options::CompressOptions;
use jstransform::symbols::{ScopeTree, SymbolTable};
use jstransform::transformer::{TransformOptions, Transformer};

fn sp(n: u32) -> Span {
    Span { start: n, end: n + 1 }
}

fn sent() -> Span {
    Span { start: 0, end: 0 }
}

fn ident(n: u32, name: &str) -> Expr {
    Expr::Ident(IdentRef { span: sp(n), name: name.to_string(), symbol: None })
}

fn expr_stmt(n: u32, e: Expr) -> Stmt {
    Stmt::Expression { span: sp(n), expression: e }
}

fn program(body: Vec<Stmt>) -> Program {
    Program { span: sp(9000), source_type: SourceType { module: false }, body }
}

fn options() -> TransformOptions {
    TransformOptions { compress: CompressOptions { booleans: true, typeofs: true, loops: true } }
}

#[test]
fn arrow_with_inserted_statements_becomes_block_bodied() {
    // An expression-bodied arrow whose body gained a statement ahead of its
    // trailing expression: () => x with an inserted statement becomes
    // () => { inserted; return x }.
    let arrow = Expr::Arrow {
        span: sp(1),
        expression: true,
        params: vec![],
        body: vec![expr_stmt(2, ident(3, "inserted")), expr_stmt(4, ident(5, "x"))],
    };
    let mut p = program(vec![expr_stmt(6, arrow)]);
    let t = Transformer::new("a.js".to_string(), &options());
    let r = t.build_with_symbols_and_scopes(SymbolTable::new(), ScopeTree::new(), &mut p);
    let expected_arrow = Expr::Arrow {
        span: sp(1),
        expression: false,
        params: vec![],
        body: vec![
            expr_stmt(2, ident(3, "inserted")),
            Stmt::Return { span: sent(), argument: Some(ident(5, "x")) },
        ],
    };
    assert_eq!(p, program(vec![expr_stmt(6, expected_arrow)]));
    assert_eq!(r.errors.len(), 0);
}

#[test]
fn expression_bodied_arrow_with_one_statement_is_kept() {
    // () => x stays expression-bodied: only arrows with more than one
    // statement are converted.
    let arrow = || Expr::Arrow {
        span: sp(1),
        expression: true,
        params: vec![BindingIdent { span: sp(2), name: "y".to_string(), symbol: Some(0) }],
        body: vec![expr_stmt(3, ident(4, "x"))],
    };
    let mut p = program(vec![expr_stmt(5, arrow())]);
    let t = Transformer::new("a.js".to_string(), &options());
    let r = t.build_with_symbols_and_scopes(SymbolTable::new(), ScopeTree::new(), &mut p);
    assert_eq!(p, program(vec![expr_stmt(5, arrow())]));
    assert_eq!(r.errors.len(), 0);
}

#[test]
fn tables_move_through_unchanged() {
    let mut p = program(vec![]);
    let t = Transformer::new("b.js".to_string(), &options());
    let symbols = SymbolTable::new();
    let scopes = ScopeTree::new();
    let r = t.build_with_symbols_and_scopes(symbols, scopes, &mut p);
    assert_eq!(r.symbols, SymbolTable::new());
    assert_eq!(r.scopes, ScopeTree::new());
}

#[test]
fn import_record_sentinels() {
    let records = vec![
        ImportSpecifier {
            n: Some("./a.js".to_string()),
            s: 10,
            e: 16,
            ss: 0,
            se: 17,
            d: ImportType::StaticImport,
            a: None,
        },
        ImportSpecifier {
            n: None,
            s: 30,
            e: 35,
            ss: 22,
            se: 36,
            d: ImportType::DynamicImport(22),
            a: Some(33),
        },
        ImportSpecifier {
            n: None,
            s: 40,
            e: 51,
            ss: 40,
            se: 51,
            d: ImportType::ImportMeta,
            a: None,
        },
        ImportSpecifier {
            n: Some("./b.js".to_string()),
            s: 60,
            e: 66,
            ss: 53,
            se: 67,
            d: ImportType::ExportStar,
            a: None,
        },
    ];
    let out = module_lexer(records, vec![], true, false);
    assert!(out.has_module_syntax);
    assert!(!out.facade);
    assert_eq!(out.imports.len(), 4);
    assert_eq!(
        out.imports[0],
        ModuleLexerImportSpecifier {
            n: Some("./a.js".to_string()),
            s: 10,
            e: 16,
            ss: 0,
            se: 17,
            d: -1,
            a: -1,
        },
    );
    assert_eq!(out.imports[1].d, 22);
    assert_eq!(out.imports[1].a, 33);
    assert_eq!(out.imports[2].d, -2);
    assert_eq!(out.imports[3].d, -3);
}

#[test]
fn export_record_fields() {
    let records = vec![ExportSpecifier {
        n: "Foo".to_string(),
        ln: Some("local".to_string()),
        s: 5,
        e: 8,
        ls: Some(1),
        le: Some(4),
    }];
    let out = module_lexer(vec![], records, true, true);
    assert!(out.facade);
    assert_eq!(out.exports.len(), 1);
    assert_eq!(out.exports[0].n, "Foo");
    assert_eq!(out.exports[0].ln, Some("local".to_string()));
    assert_eq!(out.exports[0].s, 5);
    assert_eq!(out.exports[0].e, 8);
    assert_eq!(out.exports[0].ls, Some(1));
    assert_eq!(out.exports[0].le, Some(4));
}
