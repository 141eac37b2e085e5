//! Source positions and interned names.

use vstd::prelude::*;

verus! {

/// A range of source text, used only to place diagnostics.
#[derive(Clone, Copy, PartialEq, Eq, Structural, Debug, Hash)]
pub struct Span {
    /// Offset of the first byte of the range.
    pub lo: u32,
    /// Offset one past the last byte of the range.
    pub hi: u32,
}

impl Span {
    /// The range from `lo` to `hi`.
    pub fn new(lo: u32, hi: u32) -> (span: Span)
        ensures
            span == (Span { lo, hi }),
    {
        Span { lo, hi }
    }

    /// The empty range at offset zero, for nodes that have no source text.
    pub fn dummy() -> (span: Span)
        ensures
            span == (Span { lo: 0, hi: 0 }),
    {
        Span { lo: 0, hi: 0 }
    }
}

/// An interned piece of source text: a name, or the spelling of a literal
/// that the passes carry but never read.
#[derive(Clone, Copy, PartialEq, Eq, Structural, Debug, Hash)]
pub struct Symbol {
    /// The index of the text in the interner.
    pub id: u32,
}

impl Symbol {
    /// The symbol with index `id`.
    pub fn new(id: u32) -> (symbol: Symbol)
        ensures
            symbol == (Symbol { id }),
    {
        Symbol { id }
    }
}

} // verus!
