//! The module-lexer record shapes exposed to host runtimes.
//!
//! The lexer itself is an external collaborator: it hands over one record per
//! import or export of a module. This module fixes the exact shape the host
//! sees: field names and the discriminator sentinels are part of the external
//! contract and must be preserved bit-exact. The discriminator `d` of an
//! import is the start offset for a dynamic import, -1 for a static import,
//! -2 for an `import.meta` expression, and -3 for an `export *`; the
//! assertion field `a` is the assertion start or -1.

use vstd::prelude::*;

verus! {

/// How an import-like record came to be.
#[derive(Clone, Copy, PartialEq, Eq, Structural, Debug)]
pub enum ImportType {
    /// A dynamic `import(...)`, with the start offset of the keyword.
    DynamicImport(u32),
    StaticImport,
    ImportMeta,
    ExportStar,
}

/// One import record as the lexer reports it, before it is shaped for the
/// host.
#[derive(Debug, PartialEq, Eq)]
pub struct ImportSpecifier {
    /// Specifier text, absent for a non-literal dynamic import.
    pub n: Option<String>,
    /// Start of the module specifier.
    pub s: u32,
    /// End of the module specifier.
    pub e: u32,
    /// Start of the import statement.
    pub ss: u32,
    /// End of the import statement.
    pub se: u32,
    /// What kind of import this is.
    pub d: ImportType,
    /// Start of the import assertion, if any.
    pub a: Option<u32>,
}

/// One export record as the lexer reports it.
#[derive(Debug, PartialEq, Eq)]
pub struct ExportSpecifier {
    /// Exported name.
    pub n: String,
    /// Local name, or absent.
    pub ln: Option<String>,
    /// Span of the exported name.
    pub s: u32,
    pub e: u32,
    /// Span of the local name, or absent.
    pub ls: Option<u32>,
    pub le: Option<u32>,
}

/// The import record shape the host runtime receives.
#[derive(Debug, PartialEq, Eq)]
pub struct ModuleLexerImportSpecifier {
    /// Module name.
    pub n: Option<String>,
    /// Start of module specifier.
    pub s: u32,
    /// End of module specifier.
    pub e: u32,
    /// Start of import statement.
    pub ss: u32,
    /// End of import statement.
    pub se: u32,
    /// Discriminator: dynamic-import start offset, -1 static, -2
    /// `import.meta`, -3 `export *`.
    pub d: i64,
    /// Import-assertion start, or -1.
    pub a: i64,
}

/// The export record shape the host runtime receives.
#[derive(Debug, PartialEq, Eq)]
pub struct ModuleLexerExportSpecifier {
    /// Exported name.
    pub n: String,
    /// Local name, or absent.
    pub ln: Option<String>,
    /// Start of exported name.
    pub s: u32,
    /// End of exported name.
    pub e: u32,
    /// Start of local name.
    pub ls: Option<u32>,
    /// End of local name.
    pub le: Option<u32>,
}

/// The whole result object for one module.
#[derive(Debug, PartialEq, Eq)]
pub struct ModuleLexer {
    pub imports: Vec<ModuleLexerImportSpecifier>,
    pub exports: Vec<ModuleLexerExportSpecifier>,
    /// Whether any `import` / `export` statement or `import.meta` occurs.
    pub has_module_syntax: bool,
    /// Whether the module consists solely of import/export passthroughs.
    pub facade: bool,
}

/// The discriminator sentinel encoding of an import kind.
pub open spec fn import_type_code(d: ImportType) -> int {
    match d {
        ImportType::DynamicImport(start) => start as int,
        ImportType::StaticImport => -1,
        ImportType::ImportMeta => -2,
        ImportType::ExportStar => -3,
    }
}

/// The assertion-start sentinel encoding.
pub open spec fn assertion_code(a: Option<u32>) -> int {
    match a {
        Some(start) => start as int,
        None => -1,
    }
}

/// The host shape of one import record: fields copied, the kind and the
/// assertion start encoded as sentinels.
pub open spec fn import_dto_of(i: ImportSpecifier) -> ModuleLexerImportSpecifier {
    ModuleLexerImportSpecifier {
        n: i.n,
        s: i.s,
        e: i.e,
        ss: i.ss,
        se: i.se,
        d: import_type_code(i.d) as i64,
        a: assertion_code(i.a) as i64,
    }
}

/// The host shape of one export record: fields copied unchanged.
pub open spec fn export_dto_of(e: ExportSpecifier) -> ModuleLexerExportSpecifier {
    ModuleLexerExportSpecifier { n: e.n, ln: e.ln, s: e.s, e: e.e, ls: e.ls, le: e.le }
}

impl From<ImportSpecifier> for ModuleLexerImportSpecifier {
    fn from(i: ImportSpecifier) -> (r: ModuleLexerImportSpecifier) {
        let d: i64 = match i.d {
            ImportType::DynamicImport(start) => start as i64,
            ImportType::StaticImport => -1,
            ImportType::ImportMeta => -2,
            ImportType::ExportStar => -3,
        };
        let a: i64 = match i.a {
            Some(start) => start as i64,
            None => -1,
        };
        ModuleLexerImportSpecifier { n: i.n, s: i.s, e: i.e, ss: i.ss, se: i.se, d, a }
    }
}

impl vstd::std_specs::convert::FromSpecImpl<ImportSpecifier> for ModuleLexerImportSpecifier {
    open spec fn obeys_from_spec() -> bool {
        true
    }

    open spec fn from_spec(i: ImportSpecifier) -> ModuleLexerImportSpecifier {
        import_dto_of(i)
    }
}

impl From<ExportSpecifier> for ModuleLexerExportSpecifier {
    fn from(e: ExportSpecifier) -> (r: ModuleLexerExportSpecifier) {
        ModuleLexerExportSpecifier { n: e.n, ln: e.ln, s: e.s, e: e.e, ls: e.ls, le: e.le }
    }
}

impl vstd::std_specs::convert::FromSpecImpl<ExportSpecifier> for ModuleLexerExportSpecifier {
    open spec fn obeys_from_spec() -> bool {
        true
    }

    open spec fn from_spec(e: ExportSpecifier) -> ModuleLexerExportSpecifier {
        export_dto_of(e)
    }
}

/// Shapes the lexer's records into the result object the host receives,
/// record by record and in order, together with the two summary flags.
pub fn module_lexer(
    imports: Vec<ImportSpecifier>,
    exports: Vec<ExportSpecifier>,
    has_module_syntax: bool,
    facade: bool,
) -> (r: ModuleLexer)
    ensures
        r.imports@.len() == imports@.len(),
        forall|k: int|
            0 <= k < imports@.len() ==> r.imports@[k]
                == import_dto_of(imports@[k]),
        r.exports@.len() == exports@.len(),
        forall|k: int|
            0 <= k < exports@.len() ==> r.exports@[k]
                == export_dto_of(exports@[k]),
        r.has_module_syntax == has_module_syntax,
        r.facade == facade,
{
    let ghost imports0 = imports@;
    let ghost exports0 = exports@;
    let mut imports = imports;
    let mut exports = exports;
    let mut out_imports: Vec<ModuleLexerImportSpecifier> = Vec::new();
    let mut out_exports: Vec<ModuleLexerExportSpecifier> = Vec::new();
    while imports.len() > 0
        invariant
            out_imports@.len() <= imports0.len(),
            imports@ =~= imports0.subrange(out_imports@.len() as int, imports0.len() as int),
            forall|k: int|
                0 <= k < out_imports@.len() ==> out_imports@[k] == import_dto_of(imports0[k]),
        decreases imports@.len(),
    {
        let ghost i = out_imports@.len() as int;
        let rec = imports.remove(0);
        proof {
            assert(rec == imports0[i]);
            assert(imports@ =~= imports0.subrange(i + 1, imports0.len() as int));
        }
        out_imports.push(ModuleLexerImportSpecifier::from(rec));
    }
    while exports.len() > 0
        invariant
            out_exports@.len() <= exports0.len(),
            exports@ =~= exports0.subrange(out_exports@.len() as int, exports0.len() as int),
            forall|k: int|
                0 <= k < out_exports@.len() ==> out_exports@[k] == export_dto_of(exports0[k]),
        decreases exports@.len(),
    {
        let ghost j = out_exports@.len() as int;
        let rec = exports.remove(0);
        proof {
            assert(rec == exports0[j]);
            assert(exports@ =~= exports0.subrange(j + 1, exports0.len() as int));
        }
        out_exports.push(ModuleLexerExportSpecifier::from(rec));
    }
    ModuleLexer { imports: out_imports, exports: out_exports, has_module_syntax, facade }
}

} // verus!
