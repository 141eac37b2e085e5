//! The pass that changes nothing.
//!
//! It is the common ground of all reconstructing passes: a pass that cares
//! for one kind of node only does for every other kind what this pass
//! does.

use vstd::prelude::*;
use crate::expression::{
    AccessExpression,
    BinaryExpression,
    CallExpression,
    ErrExpression,
    Expression,
    Identifier,
    LiteralExpression,
    StructExpression,
    TernaryExpression,
    TupleExpression,
    UnaryExpression,
};
use crate::program::Function;
use crate::reconstructor::{ExpressionReconstructor, ProgramReconstructor, StatementReconstructor};
use crate::statement::{
    AssignStatement,
    Block,
    ConditionalStatement,
    ConsoleStatement,
    DecrementStatement,
    DefinitionStatement,
    FinalizeStatement,
    IncrementStatement,
    IterationStatement,
    ReturnStatement,
    Statement,
};

verus! {

/// A pass without state that puts every node back in its place.
#[derive(Clone, Copy, PartialEq, Eq, Structural, Debug)]
pub struct Identity;

impl ExpressionReconstructor for Identity {
    type AdditionalOutput = ();

    open spec fn wf(&self) -> bool {
        true
    }

    open spec fn no_output() -> () {
        ()
    }

    fn reconstructs_callee(&self) -> (reconstructed: bool) {
        true
    }

    fn reconstruct_identifier(&mut self, input: Identifier) -> (result: (Expression, ())) {
        (Expression::Identifier(input), ())
    }

    fn reconstruct_literal(&mut self, input: LiteralExpression) -> (result: (Expression, ())) {
        (Expression::Literal(input), ())
    }

    fn reconstruct_binary(
        &mut self,
        input: &BinaryExpression,
        rebuilt: BinaryExpression,
        left: (),
        right: (),
    ) -> (result: (Expression, ())) {
        (Expression::Binary(rebuilt), ())
    }

    fn reconstruct_unary(&mut self, input: &UnaryExpression, rebuilt: UnaryExpression, receiver: ()) -> (result:
        (Expression, ())) {
        (Expression::Unary(rebuilt), ())
    }

    fn reconstruct_ternary(&mut self, input: &TernaryExpression, rebuilt: TernaryExpression) -> (result:
        (Expression, ())) {
        (Expression::Ternary(rebuilt), ())
    }

    fn reconstruct_call(&mut self, input: &CallExpression, rebuilt: CallExpression) -> (result: (
        Expression,
        (),
    )) {
        (Expression::Call(rebuilt), ())
    }

    fn reconstruct_access(&mut self, input: &AccessExpression, rebuilt: AccessExpression) -> (result:
        (Expression, ())) {
        (Expression::Access(rebuilt), ())
    }

    fn reconstruct_struct_init(&mut self, input: &StructExpression) -> (result: (Expression, ())) {
        (Expression::Struct(input.duplicate()), ())
    }

    fn reconstruct_tuple(&mut self, input: &TupleExpression, rebuilt: TupleExpression) -> (result: (
        Expression,
        (),
    )) {
        (Expression::Tuple(rebuilt), ())
    }

    fn reconstruct_err(&mut self, input: ErrExpression) -> (result: (Expression, ())) {
        (Expression::Error(input), ())
    }
}

impl StatementReconstructor for Identity {
    fn reconstruct_return(&mut self, rebuilt: ReturnStatement, value: ()) -> (result: Statement) {
        Statement::Return(rebuilt)
    }

    fn reconstruct_definition(&mut self, rebuilt: DefinitionStatement, value: ()) -> (result:
        Statement) {
        Statement::Definition(rebuilt)
    }

    fn reconstruct_assign(&mut self, rebuilt: AssignStatement, value: ()) -> (result: Statement) {
        Statement::Assign(Box::new(rebuilt))
    }

    fn reconstruct_conditional(&mut self, rebuilt: ConditionalStatement) -> (result: Statement) {
        Statement::Conditional(rebuilt)
    }

    fn reconstruct_iteration(&mut self, rebuilt: IterationStatement) -> (result: Statement) {
        Statement::Iteration(Box::new(rebuilt))
    }

    fn reconstruct_console(&mut self, rebuilt: ConsoleStatement) -> (result: Statement) {
        Statement::Console(rebuilt)
    }

    fn reconstruct_decrement(&mut self, rebuilt: DecrementStatement) -> (result: Statement) {
        Statement::Decrement(rebuilt)
    }

    fn reconstruct_increment(&mut self, rebuilt: IncrementStatement) -> (result: Statement) {
        Statement::Increment(rebuilt)
    }

    fn reconstruct_finalize(&mut self, rebuilt: FinalizeStatement) -> (result: Statement) {
        Statement::Finalize(rebuilt)
    }

    fn reconstruct_block(&mut self, rebuilt: Block) -> (result: Block) {
        rebuilt
    }
}

impl ProgramReconstructor for Identity {
    fn reconstruct_function(&mut self, rebuilt: Function) -> (result: Function) {
        rebuilt
    }
}

} // verus!
