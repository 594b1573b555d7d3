//! A verified core of a JavaScript/TypeScript transformation pipeline.
//!
//! The library owns the AST model, the traversal that drives the passes, a
//! peephole minifier pass with its semantic guards, the transformer composer
//! with its arrow-body normalization, and the module-lexer record shapes
//! exposed to host runtimes. Parsing, printing and host bindings are external
//! collaborators; they exchange plain values with this crate.

pub mod ast;
pub mod laws;
pub mod module_lexer;
pub mod options;
pub mod peephole;
pub mod spec_ast;
pub mod symbols;
pub mod transformer;
