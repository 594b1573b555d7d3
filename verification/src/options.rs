//! Options records for the passes, and the pass-local state of the peephole
//! minifier.

use vstd::prelude::*;

verus! {

/// Switches of the peephole minifier. Each boolean enables one family of
/// rewrites; the default enables all of them.
#[derive(Clone, Copy, PartialEq, Eq, Structural, Debug)]
pub struct CompressOptions {
    /// Rewrite `true` / `false` to `!0` / `!1`.
    pub booleans: bool,
    /// Rewrite `typeof x == "undefined"` comparisons to `typeof x > "u"`.
    pub typeofs: bool,
    /// Loop rewrites (reserved; no loop rewrite is currently performed).
    pub loops: bool,
}

impl CompressOptions {
    pub fn all_true() -> (o: CompressOptions)
        ensures
            o.booleans && o.typeofs && o.loops,
    {
        CompressOptions { booleans: true, typeofs: true, loops: true }
    }
}

impl Default for CompressOptions {
    fn default() -> (o: CompressOptions)
        ensures
            o.booleans && o.typeofs && o.loops,
    {
        CompressOptions::all_true()
    }
}

/// The whole state of the peephole minifier pass: a sticky `changed` flag the
/// driver reads to decide whether another pass is worthwhile, and the
/// `in_define_export` flag that suppresses boolean rewrites inside an
/// `Object.defineProperty(exports, ...)` call.
#[derive(Clone, Copy, PartialEq, Eq, Structural, Debug)]
pub struct PassState {
    pub changed: bool,
    pub in_define_export: bool,
}

} // verus!
