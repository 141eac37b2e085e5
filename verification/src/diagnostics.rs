//! Diagnostics, and the handler that collects them.
//!
//! Emitting a diagnostic never stops a pass: the handler only records it.
//! What to do with the collected diagnostics is left to the driver.

use vstd::prelude::*;
use crate::list::List;
use crate::span::{Span, Symbol};
use crate::types::Type;
use crate::value::{EvalError, EvalErrorKind};

verus! {

/// What kind of thing a name was expected to be.
#[derive(Clone, Copy, PartialEq, Eq, Structural, Debug, Hash)]
pub enum SymbolKind {
    Variable,
    Function,
    Struct,
}

/// What went wrong.
#[derive(Clone, Copy, PartialEq, Eq, Structural, Debug, Hash)]
pub enum DiagnosticKind {
    /// The name is already bound in the innermost scope.
    Redeclaration { name: Symbol },
    /// No binding of that kind is in reach.
    UnknownSymbol { kind: SymbolKind, name: Symbol },
    /// An assignment to a variable declared `const`.
    CannotAssignToConstVariable { name: Symbol },
    /// An assignment to a parameter passed as a constant.
    CannotAssignToConstInput { name: Symbol },
    /// An expression of type `found` stands where `expected` is required.
    TypeMismatch { expected: Type, found: Type },
    /// A type names a struct that is not declared.
    UndefinedType { name: Symbol },
    /// A constant expression could not be evaluated.
    Evaluation(EvalErrorKind),
    /// A node that the parser left for an error is still in the tree. This
    /// is a fault of the compiler, not of the program.
    UnexpectedErrorNode,
}

/// One error found in the program, with its place.
#[derive(Clone, Copy, PartialEq, Eq, Structural, Debug, Hash)]
pub struct Diagnostic {
    pub kind: DiagnosticKind,
    pub span: Span,
}

/// The first code of the type checker's range.
pub const TYPE_CHECKER_BASE: u32 = 2000;

/// The first code of the constant evaluator's range.
pub const EVALUATION_BASE: u32 = 3000;

impl Diagnostic {
    /// The diagnostic that reports a failed constant operation.
    pub open spec fn of_eval_error(error: EvalError) -> Diagnostic {
        Diagnostic { kind: DiagnosticKind::Evaluation(error.kind), span: error.span }
    }

    /// The number that identifies the kind of the diagnostic. Codes of the
    /// type checker start at `TYPE_CHECKER_BASE`, those of the constant
    /// evaluator at `EVALUATION_BASE`.
    pub open spec fn code_of(self) -> u32 {
        match self.kind {
            DiagnosticKind::Redeclaration { .. } => 2000,
            DiagnosticKind::UnknownSymbol { .. } => 2001,
            DiagnosticKind::CannotAssignToConstVariable { .. } => 2002,
            DiagnosticKind::CannotAssignToConstInput { .. } => 2003,
            DiagnosticKind::TypeMismatch { .. } => 2004,
            DiagnosticKind::UndefinedType { .. } => 2005,
            DiagnosticKind::UnexpectedErrorNode => 2006,
            DiagnosticKind::Evaluation(EvalErrorKind::Overflow) => 3000,
            DiagnosticKind::Evaluation(EvalErrorKind::DivisionByZero) => 3001,
            DiagnosticKind::Evaluation(EvalErrorKind::TypeMismatch) => 3002,
        }
    }

    /// The diagnostic that reports a failed constant operation.
    pub fn from_eval_error(error: EvalError) -> (diagnostic: Diagnostic)
        ensures
            diagnostic == Diagnostic::of_eval_error(error),
    {
        Diagnostic { kind: DiagnosticKind::Evaluation(error.kind), span: error.span }
    }

    /// The number that identifies the kind of the diagnostic.
    pub fn code(&self) -> (code: u32)
        ensures
            code == self.code_of(),
            code >= TYPE_CHECKER_BASE,
            (self.kind is Evaluation) == (code >= EVALUATION_BASE),
    {
        match self.kind {
            DiagnosticKind::Redeclaration { .. } => 2000,
            DiagnosticKind::UnknownSymbol { .. } => 2001,
            DiagnosticKind::CannotAssignToConstVariable { .. } => 2002,
            DiagnosticKind::CannotAssignToConstInput { .. } => 2003,
            DiagnosticKind::TypeMismatch { .. } => 2004,
            DiagnosticKind::UndefinedType { .. } => 2005,
            DiagnosticKind::UnexpectedErrorNode => 2006,
            DiagnosticKind::Evaluation(EvalErrorKind::Overflow) => 3000,
            DiagnosticKind::Evaluation(EvalErrorKind::DivisionByZero) => 3001,
            DiagnosticKind::Evaluation(EvalErrorKind::TypeMismatch) => 3002,
        }
    }

    /// A sentence that says what went wrong. The names and types involved
    /// are in `kind`.
    pub open spec fn text(self) -> Seq<char> {
        match self.kind {
            DiagnosticKind::Redeclaration { .. } => "the name is already declared in this scope"@,
            DiagnosticKind::UnknownSymbol { .. } => "the name is not declared"@,
            DiagnosticKind::CannotAssignToConstVariable { .. } => {
                "cannot assign to a constant variable"@
            },
            DiagnosticKind::CannotAssignToConstInput { .. } => {
                "cannot assign to a constant input parameter"@
            },
            DiagnosticKind::TypeMismatch { .. } => "the expression has not the expected type"@,
            DiagnosticKind::UndefinedType { .. } => "the type is not declared"@,
            DiagnosticKind::UnexpectedErrorNode => {
                "a node left by a parse error is still in the tree"@
            },
            DiagnosticKind::Evaluation(EvalErrorKind::Overflow) => {
                "the constant is out of the range of its type"@
            },
            DiagnosticKind::Evaluation(EvalErrorKind::DivisionByZero) => {
                "the constant divisor is zero"@
            },
            DiagnosticKind::Evaluation(EvalErrorKind::TypeMismatch) => {
                "the operation is not defined on constants of these kinds"@
            },
        }
    }

    /// A sentence that says what went wrong. The names and types involved
    /// are in `kind`.
    pub fn message(&self) -> (message: &'static str)
        ensures
            message@ == self.text(),
    {
        match self.kind {
            DiagnosticKind::Redeclaration { .. } => "the name is already declared in this scope",
            DiagnosticKind::UnknownSymbol { .. } => "the name is not declared",
            DiagnosticKind::CannotAssignToConstVariable { .. } => {
                "cannot assign to a constant variable"
            },
            DiagnosticKind::CannotAssignToConstInput { .. } => {
                "cannot assign to a constant input parameter"
            },
            DiagnosticKind::TypeMismatch { .. } => "the expression has not the expected type",
            DiagnosticKind::UndefinedType { .. } => "the type is not declared",
            DiagnosticKind::UnexpectedErrorNode => {
                "a node left by a parse error is still in the tree"
            },
            DiagnosticKind::Evaluation(EvalErrorKind::Overflow) => {
                "the constant is out of the range of its type"
            },
            DiagnosticKind::Evaluation(EvalErrorKind::DivisionByZero) => {
                "the constant divisor is zero"
            },
            DiagnosticKind::Evaluation(EvalErrorKind::TypeMismatch) => {
                "the operation is not defined on constants of these kinds"
            },
        }
    }
}

/// The diagnostics of a list that holds the latest first, in the order in
/// which they were emitted.
pub open spec fn in_order(latest_first: List<Diagnostic>) -> Seq<Diagnostic>
    decreases latest_first,
{
    match latest_first {
        List::Nil => Seq::empty(),
        List::Cons(head, tail) => in_order(*tail).push(*head),
    }
}

/// Collects diagnostics for as long as a compilation runs.
#[derive(Debug, PartialEq, Eq)]
pub struct Handler {
    /// What was emitted so far, the latest first.
    pub emitted: List<Diagnostic>,
}

impl View for Handler {
    type V = Seq<Diagnostic>;

    /// The diagnostics in the order of their emission.
    open spec fn view(&self) -> Seq<Diagnostic> {
        in_order(self.emitted)
    }
}

impl Handler {
    /// The handler after `diagnostic` was emitted.
    pub open spec fn with(self, diagnostic: Diagnostic) -> Handler {
        Handler { emitted: List::Cons(Box::new(diagnostic), Box::new(self.emitted)) }
    }

    /// The handler after every diagnostic was emitted that `emit` holds,
    /// none if it holds none.
    pub open spec fn with_optional(self, emit: Option<Diagnostic>) -> Handler {
        match emit {
            Some(diagnostic) => self.with(diagnostic),
            None => self,
        }
    }

    /// A handler that holds nothing.
    pub fn new() -> (handler: Handler)
        ensures
            handler == (Handler { emitted: List::Nil }),
            handler@ == Seq::<Diagnostic>::empty(),
    {
        Handler { emitted: List::Nil }
    }

    /// Records `diagnostic` after all that were emitted before. Nothing
    /// that was recorded is changed or lost.
    pub fn emit(&mut self, diagnostic: Diagnostic)
        ensures
            *final(self) == old(self).with(diagnostic),
            final(self)@ == old(self)@.push(diagnostic),
    {
        let mut emitted = List::Nil;
        std::mem::swap(&mut emitted, &mut self.emitted);
        self.emitted = List::Cons(Box::new(diagnostic), Box::new(emitted));
    }

    /// Records the diagnostic that reports a failed constant operation.
    pub fn emit_err(&mut self, error: EvalError)
        ensures
            *final(self) == old(self).with(Diagnostic::of_eval_error(error)),
            final(self)@ == old(self)@.push(Diagnostic::of_eval_error(error)),
    {
        self.emit(Diagnostic::from_eval_error(error));
    }

    /// Whether anything was emitted.
    pub fn had_errors(&self) -> (had: bool)
        ensures
            had == (self@.len() > 0),
    {
        match &self.emitted {
            List::Nil => false,
            List::Cons(_, _) => true,
        }
    }

    /// The diagnostics in the order of their emission.
    pub fn diagnostics(&self) -> (all: Vec<Diagnostic>)
        ensures
            all@ == self@,
    {
        let mut all = Vec::new();
        collect(&self.emitted, &mut all);
        all
    }
}

/// Appends the diagnostics of a list that holds the latest first to `out`,
/// in the order of their emission.
fn collect(latest_first: &List<Diagnostic>, out: &mut Vec<Diagnostic>)
    ensures
        final(out)@ == old(out)@ + in_order(*latest_first),
    decreases latest_first,
{
    match latest_first {
        List::Nil => {
            assert(out@ + Seq::<Diagnostic>::empty() =~= out@);
        },
        List::Cons(head, tail) => {
            collect(tail, out);
            out.push(**head);
            assert(out@ =~= old(out)@ + in_order(**tail).push(**head));
        },
    }
}

} // verus!
