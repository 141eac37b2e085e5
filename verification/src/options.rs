//! What a compiler run writes out besides its result.

use vstd::prelude::*;

verus! {

/// Which syntax trees a compiler run writes out for inspection. The
/// options are independent of one another, and all are off by default.
#[derive(Clone, Copy, PartialEq, Eq, Structural, Debug, Hash)]
pub struct OutputOptions {
    /// Whether spans are kept in the trees that are written out.
    pub spans_enabled: bool,
    /// Whether the tree is written out right after parsing.
    pub ast_initial: bool,
    /// Whether the tree of the program's input is written out after
    /// parsing.
    pub input_ast_initial: bool,
    /// Whether the tree is written out after flattening.
    pub flattened_ast: bool,
    /// Whether the tree is written out after it was brought into static
    /// single assignment form.
    pub ssa_ast: bool,
    /// Whether the tree is written out after dead code was eliminated.
    pub dead_code_eliminated_ast: bool,
}

impl OutputOptions {
    /// The options with everything off.
    pub open spec fn all_off() -> OutputOptions {
        OutputOptions {
            spans_enabled: false,
            ast_initial: false,
            input_ast_initial: false,
            flattened_ast: false,
            ssa_ast: false,
            dead_code_eliminated_ast: false,
        }
    }
}

impl Default for OutputOptions {
    /// The options with everything off.
    fn default() -> (options: OutputOptions)
        ensures
            options == OutputOptions::all_off(),
    {
        OutputOptions {
            spans_enabled: false,
            ast_initial: false,
            input_ast_initial: false,
            flattened_ast: false,
            ssa_ast: false,
            dead_code_eliminated_ast: false,
        }
    }
}

} // verus!
