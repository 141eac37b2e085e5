//! Statements and blocks.

use vstd::prelude::*;
use crate::expression::{all_error_free, are_error_free, Expression, Identifier};
use crate::list::List;
use crate::span::{Span, Symbol};
use crate::types::Type;

verus! {

/// Whether a definition declares a constant or a variable.
#[derive(Clone, Copy, PartialEq, Eq, Structural, Debug, Hash)]
pub enum DeclarationType {
    Const,
    Let,
}

/// What an assignment does with the old value of its place.
#[derive(Clone, Copy, PartialEq, Eq, Structural, Debug, Hash)]
pub enum AssignOperation {
    Assign,
    Add,
    Sub,
    Mul,
    Div,
    Pow,
    And,
    Or,
    BitAnd,
    BitOr,
    BitXor,
    Shl,
    Shr,
}

/// `return expression;`
#[derive(Debug, PartialEq, Eq)]
pub struct ReturnStatement {
    pub expression: Expression,
    pub span: Span,
}

/// `const name: type = value;` or `let name: type = value;`
#[derive(Debug, PartialEq, Eq)]
pub struct DefinitionStatement {
    pub declaration_type: DeclarationType,
    pub variable_name: Identifier,
    pub type_: Type,
    pub value: Expression,
    pub span: Span,
}

/// `place = value;` and its compound forms.
#[derive(Debug, PartialEq, Eq)]
pub struct AssignStatement {
    pub operation: AssignOperation,
    pub place: Identifier,
    pub value: Expression,
    pub span: Span,
}

/// `if condition block`, with what follows `else` if anything does: another
/// conditional or a block.
#[derive(Debug, PartialEq, Eq)]
pub struct ConditionalStatement {
    pub condition: Expression,
    pub block: Block,
    pub next: Option<Box<Statement>>,
    pub span: Span,
}

/// `for variable: type in start..stop block`
#[derive(Debug, PartialEq, Eq)]
pub struct IterationStatement {
    pub variable: Identifier,
    pub type_: Type,
    pub start: Expression,
    pub stop: Expression,
    pub inclusive: bool,
    pub block: Block,
    pub span: Span,
}

/// A format string and the expressions that fill it.
#[derive(Debug, PartialEq, Eq)]
pub struct ConsoleArgs {
    pub string: Symbol,
    pub parameters: List<Expression>,
    pub span: Span,
}

/// What a console statement does.
#[derive(Debug, PartialEq, Eq)]
pub enum ConsoleFunction {
    Assert(Expression),
    AssertEq(Expression, Expression),
    AssertNeq(Expression, Expression),
    Error(ConsoleArgs),
    Log(ConsoleArgs),
}

/// A built-in statement for checks and output while a program is tested.
#[derive(Debug, PartialEq, Eq)]
pub struct ConsoleStatement {
    pub function: ConsoleFunction,
    pub span: Span,
}

/// Takes `amount` from the entry of `mapping` at `index`.
#[derive(Debug, PartialEq, Eq)]
pub struct DecrementStatement {
    pub mapping: Identifier,
    pub index: Expression,
    pub amount: Expression,
    pub span: Span,
}

/// Adds `amount` to the entry of `mapping` at `index`.
#[derive(Debug, PartialEq, Eq)]
pub struct IncrementStatement {
    pub mapping: Identifier,
    pub index: Expression,
    pub amount: Expression,
    pub span: Span,
}

/// The call from a function's body into its finalize block.
#[derive(Debug, PartialEq, Eq)]
pub struct FinalizeStatement {
    pub arguments: List<Expression>,
    pub span: Span,
}

/// Statements that share one scope.
#[derive(Debug, PartialEq, Eq)]
pub struct Block {
    pub statements: List<Statement>,
    pub span: Span,
}

/// One step of a function's body.
#[derive(Debug, PartialEq, Eq)]
pub enum Statement {
    Assign(Box<AssignStatement>),
    Block(Block),
    Conditional(ConditionalStatement),
    Console(ConsoleStatement),
    Decrement(DecrementStatement),
    Definition(DefinitionStatement),
    Finalize(FinalizeStatement),
    Increment(IncrementStatement),
    Iteration(Box<IterationStatement>),
    Return(ReturnStatement),
}

impl ConsoleFunction {
    /// Whether every expression of the console function is `error_free`.
    pub open spec fn error_free(self) -> bool {
        match self {
            ConsoleFunction::Assert(expression) => expression.error_free(),
            ConsoleFunction::AssertEq(left, right) => left.error_free() && right.error_free(),
            ConsoleFunction::AssertNeq(left, right) => left.error_free() && right.error_free(),
            ConsoleFunction::Error(args) => all_error_free(args.parameters),
            ConsoleFunction::Log(args) => all_error_free(args.parameters),
        }
    }

    /// Tells whether the console function is `error_free`.
    pub fn is_error_free(&self) -> (free: bool)
        ensures
            free == self.error_free(),
    {
        match self {
            ConsoleFunction::Assert(expression) => expression.is_error_free(),
            ConsoleFunction::AssertEq(left, right) => left.is_error_free()
                && right.is_error_free(),
            ConsoleFunction::AssertNeq(left, right) => left.is_error_free()
                && right.is_error_free(),
            ConsoleFunction::Error(args) => are_error_free(&args.parameters),
            ConsoleFunction::Log(args) => are_error_free(&args.parameters),
        }
    }
}

impl Statement {
    /// Whether no `Error` node stands where a visitor of the statement
    /// goes: every expression of the statement, and of the statements
    /// inside it, is `error_free`.
    pub open spec fn error_free(self) -> bool
        decreases self,
    {
        match self {
            Statement::Assign(assign) => assign.value.error_free(),
            Statement::Block(block) => block.error_free(),
            Statement::Conditional(conditional) => conditional.condition.error_free()
                && conditional.block.error_free() && match conditional.next {
                Some(next) => next.error_free(),
                None => true,
            },
            Statement::Console(console) => console.function.error_free(),
            Statement::Decrement(decrement) => decrement.amount.error_free()
                && decrement.index.error_free(),
            Statement::Definition(definition) => definition.value.error_free(),
            Statement::Finalize(finalize) => all_error_free(finalize.arguments),
            Statement::Increment(increment) => increment.amount.error_free()
                && increment.index.error_free(),
            Statement::Iteration(iteration) => iteration.start.error_free()
                && iteration.stop.error_free() && iteration.block.error_free(),
            Statement::Return(statement) => statement.expression.error_free(),
        }
    }

    /// Tells whether the statement is `error_free`.
    pub fn is_error_free(&self) -> (free: bool)
        ensures
            free == self.error_free(),
        decreases self,
    {
        match self {
            Statement::Assign(assign) => assign.value.is_error_free(),
            Statement::Block(block) => block.is_error_free(),
            Statement::Conditional(conditional) => conditional.condition.is_error_free()
                && conditional.block.is_error_free() && match &conditional.next {
                Some(next) => next.is_error_free(),
                None => true,
            },
            Statement::Console(console) => console.function.is_error_free(),
            Statement::Decrement(decrement) => decrement.amount.is_error_free()
                && decrement.index.is_error_free(),
            Statement::Definition(definition) => definition.value.is_error_free(),
            Statement::Finalize(finalize) => are_error_free(&finalize.arguments),
            Statement::Increment(increment) => increment.amount.is_error_free()
                && increment.index.is_error_free(),
            Statement::Iteration(iteration) => iteration.start.is_error_free()
                && iteration.stop.is_error_free() && iteration.block.is_error_free(),
            Statement::Return(statement) => statement.expression.is_error_free(),
        }
    }
}

impl Block {
    /// Whether every statement of the block is `error_free`.
    pub open spec fn error_free(self) -> bool
        decreases self,
    {
        all_statements_error_free(self.statements)
    }

    /// Tells whether the block is `error_free`.
    pub fn is_error_free(&self) -> (free: bool)
        ensures
            free == self.error_free(),
        decreases self,
    {
        are_statements_error_free(&self.statements)
    }
}

/// Whether every statement of the list is `error_free`.
pub open spec fn all_statements_error_free(statements: List<Statement>) -> bool
    decreases statements,
{
    match statements {
        List::Nil => true,
        List::Cons(head, tail) => head.error_free() && all_statements_error_free(*tail),
    }
}

/// Tells whether every statement of the list is `error_free`.
pub fn are_statements_error_free(statements: &List<Statement>) -> (free: bool)
    ensures
        free == all_statements_error_free(*statements),
    decreases statements,
{
    match statements {
        List::Nil => true,
        List::Cons(head, tail) => head.is_error_free() && are_statements_error_free(tail),
    }
}

} // verus!
