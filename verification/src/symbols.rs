//! Models of the external symbol and scope tables, and the diagnostic
//! record.
//!
//! The tables are produced by the scope analyzer, move into the pipeline by
//! value, may be updated while passes run, and move out again with the
//! result. A symbol handle is an index into the table; a reference whose
//! handle is absent is unresolved (an implicit global).

use vstd::prelude::*;

use crate::ast::Span;

verus! {

/// One declared binding: its name and the scope it was declared in.
#[derive(Debug, PartialEq, Eq)]
pub struct Symbol {
    pub name: String,
    pub scope: u32,
}

/// The symbol table: symbol handle (index) to binding.
#[derive(Debug, PartialEq, Eq)]
pub struct SymbolTable {
    pub symbols: Vec<Symbol>,
}

impl SymbolTable {
    /// A symbol handle is valid when it indexes the table.
    pub open spec fn valid_handle(&self, handle: u32) -> bool {
        handle < self.symbols@.len()
    }

    pub fn new() -> (r: SymbolTable)
        ensures
            r.symbols@.len() == 0,
    {
        SymbolTable { symbols: Vec::new() }
    }

    pub fn len(&self) -> (n: usize)
        ensures
            n == self.symbols@.len(),
    {
        self.symbols.len()
    }
}

/// The scope tree: each scope's parent, the root being its own parent. The
/// tree mirrors the lexical structure of the program.
#[derive(Debug, PartialEq, Eq)]
pub struct ScopeTree {
    pub parents: Vec<u32>,
}

impl ScopeTree {
    /// Every scope but the root points to a scope created before it; the
    /// root points to itself.
    pub open spec fn well_formed(&self) -> bool {
        forall|i: int|
            0 < i < self.parents@.len() ==> self.parents@[i] < i
    }

    pub fn new() -> (r: ScopeTree)
        ensures
            r.parents@.len() == 0,
            r.well_formed(),
    {
        ScopeTree { parents: Vec::new() }
    }
}

/// One recoverable error, reported with a byte span into the original
/// source.
#[derive(Debug, PartialEq, Eq)]
pub struct Diagnostic {
    pub span: Span,
    pub message: String,
}

} // verus!
