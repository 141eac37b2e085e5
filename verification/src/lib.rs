//! The middle layer of a compiler for a circuit-oriented language: a syntax
//! tree, two families of traversals over it, a constant-folding pass and a
//! statement type checker. Every function is verified against a
//! mathematical model of what it computes.

mod arithmetic;
pub mod diagnostics;
pub mod expression;
pub mod flattening;
pub mod flattening_laws;
pub mod identity;
pub mod list;
pub mod numeral;
pub mod operations;
pub mod options;
pub mod program;
pub mod reconstructor;
pub mod span;
pub mod statement;
pub mod symbol_table;
pub mod traversal_laws;
pub mod type_checker;
pub mod type_checker_laws;
pub mod types;
pub mod value;
pub mod visitor;

pub use diagnostics::{Diagnostic, DiagnosticKind, Handler, SymbolKind};
pub use flattening::Flattener;
pub use identity::Identity;
pub use list::List;
pub use options::OutputOptions;
pub use reconstructor::{ExpressionReconstructor, ProgramReconstructor, StatementReconstructor};
pub use span::{Span, Symbol};
pub use symbol_table::{Declaration, FunctionSymbol, SymbolTable, VariableSymbol};
pub use type_checker::{Director, TypeChecker};
pub use types::{IntegerType, Numeral, ParamMode, Type};
pub use value::{EvalError, EvalErrorKind, Value};
pub use visitor::{ExpressionVisitor, ProgramVisitor, StatementVisitor};
