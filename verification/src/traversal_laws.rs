//! What holds of the traversals whatever the pass.

use vstd::prelude::*;
use crate::expression::{
    AccessExpression,
    BinaryExpression,
    CallExpression,
    ErrExpression,
    Expression,
    Identifier,
    LiteralExpression,
    StructExpression,
    TernaryExpression,
    TupleExpression,
    UnaryExpression,
};
use crate::list::List;
use crate::program::{Function, Program, ProgramScope};
use crate::reconstructor::{
    reconstructed_block,
    reconstructed_console_function,
    reconstructed_expression,
    reconstructed_expressions,
    reconstructed_function,
    reconstructed_functions,
    reconstructed_program,
    reconstructed_program_scopes,
    reconstructed_statement,
    reconstructed_statements,
    ExpressionReconstructor,
    ProgramReconstructor,
    StatementReconstructor,
};
use crate::visitor::{
    visited_block,
    visited_expression,
    visited_expressions,
    visited_statement,
    visited_statements,
    ExpressionVisitor,
    StatementVisitor,
};
use crate::statement::{
    AssignStatement,
    Block,
    ConditionalStatement,
    ConsoleFunction,
    ConsoleStatement,
    DecrementStatement,
    DefinitionStatement,
    FinalizeStatement,
    IncrementStatement,
    IterationStatement,
    ReturnStatement,
    Statement,
};

verus! {

/// Whether the pass puts every expression back in its place: each of its
/// methods for expressions leaves the pass as it is and returns the node
/// built of the reconstructed children, with no additional output.
pub open spec fn keeps_expressions<R: ExpressionReconstructor>(pass: R) -> bool {
    &&& forall|input: Identifier| #[trigger]
        pass.identifier_model(input) == (pass, (Expression::Identifier(input), R::no_output()))
    &&& forall|input: LiteralExpression| #[trigger]
        pass.literal_model(input) == (pass, (Expression::Literal(input), R::no_output()))
    &&& forall|
        input: BinaryExpression,
        rebuilt: BinaryExpression,
        left: R::AdditionalOutput,
        right: R::AdditionalOutput,
    | #[trigger]
        pass.binary_model(input, rebuilt, left, right) == (
            pass,
            (Expression::Binary(rebuilt), R::no_output()),
        )
    &&& forall|input: UnaryExpression, rebuilt: UnaryExpression, receiver: R::AdditionalOutput| #[trigger]
        pass.unary_model(input, rebuilt, receiver) == (
            pass,
            (Expression::Unary(rebuilt), R::no_output()),
        )
    &&& forall|input: TernaryExpression, rebuilt: TernaryExpression| #[trigger]
        pass.ternary_model(input, rebuilt) == (
            pass,
            (Expression::Ternary(rebuilt), R::no_output()),
        )
    &&& forall|input: CallExpression, rebuilt: CallExpression| #[trigger]
        pass.call_model(input, rebuilt) == (pass, (Expression::Call(rebuilt), R::no_output()))
    &&& forall|input: AccessExpression, rebuilt: AccessExpression| #[trigger]
        pass.access_model(input, rebuilt) == (pass, (Expression::Access(rebuilt), R::no_output()))
    &&& forall|input: StructExpression| #[trigger]
        pass.struct_init_model(input) == (pass, (Expression::Struct(input), R::no_output()))
    &&& forall|input: TupleExpression, rebuilt: TupleExpression| #[trigger]
        pass.tuple_model(input, rebuilt) == (pass, (Expression::Tuple(rebuilt), R::no_output()))
    &&& forall|input: ErrExpression| #[trigger]
        pass.err_model(input) == (pass, (Expression::Error(input), R::no_output()))
}

/// Whether the pass puts every statement back in its place as well.
pub open spec fn keeps_statements<R: StatementReconstructor>(pass: R) -> bool {
    &&& keeps_expressions(pass)
    &&& forall|rebuilt: ReturnStatement, value: R::AdditionalOutput| #[trigger]
        pass.return_model(rebuilt, value) == (pass, Statement::Return(rebuilt))
    &&& forall|rebuilt: DefinitionStatement, value: R::AdditionalOutput| #[trigger]
        pass.definition_model(rebuilt, value) == (pass, Statement::Definition(rebuilt))
    &&& forall|rebuilt: AssignStatement, value: R::AdditionalOutput| #[trigger]
        pass.assign_model(rebuilt, value) == (pass, Statement::Assign(Box::new(rebuilt)))
    &&& forall|rebuilt: ConditionalStatement| #[trigger]
        pass.conditional_model(rebuilt) == (pass, Statement::Conditional(rebuilt))
    &&& forall|rebuilt: IterationStatement| #[trigger]
        pass.iteration_model(rebuilt) == (pass, Statement::Iteration(Box::new(rebuilt)))
    &&& forall|rebuilt: ConsoleStatement| #[trigger]
        pass.console_model(rebuilt) == (pass, Statement::Console(rebuilt))
    &&& forall|rebuilt: DecrementStatement| #[trigger]
        pass.decrement_model(rebuilt) == (pass, Statement::Decrement(rebuilt))
    &&& forall|rebuilt: IncrementStatement| #[trigger]
        pass.increment_model(rebuilt) == (pass, Statement::Increment(rebuilt))
    &&& forall|rebuilt: FinalizeStatement| #[trigger]
        pass.finalize_model(rebuilt) == (pass, Statement::Finalize(rebuilt))
    &&& forall|rebuilt: Block| #[trigger] pass.block_model(rebuilt) == (pass, rebuilt)
}

/// Whether the pass puts every function back in its place as well.
pub open spec fn keeps_programs<R: ProgramReconstructor>(pass: R) -> bool {
    &&& keeps_statements(pass)
    &&& forall|rebuilt: Function| #[trigger] pass.function_model(rebuilt) == (pass, rebuilt)
}

/// A pass that puts every expression back in its place reconstructs an
/// expression to itself.
pub proof fn law_kept_expression<R: ExpressionReconstructor>(pass: R, input: Expression)
    requires
        keeps_expressions(pass),
    ensures
        reconstructed_expression(pass, input) == (pass, (input, R::no_output())),
    decreases input,
{
    match input {
        Expression::Binary(binary) => {
            law_kept_expression(pass, *binary.left);
            law_kept_expression(pass, *binary.right);
        },
        Expression::Unary(unary) => {
            law_kept_expression(pass, *unary.receiver);
        },
        Expression::Ternary(ternary) => {
            law_kept_expression(pass, *ternary.condition);
            law_kept_expression(pass, *ternary.if_true);
            law_kept_expression(pass, *ternary.if_false);
        },
        Expression::Call(call) => {
            law_kept_expression(pass, *call.function);
            law_kept_expressions(pass, call.arguments);
        },
        Expression::Access(AccessExpression::AssociatedFunction(function)) => {
            law_kept_expressions(pass, function.args);
        },
        Expression::Access(AccessExpression::Member(member)) => {
            law_kept_expression(pass, *member.inner);
        },
        Expression::Access(AccessExpression::Tuple(access)) => {
            law_kept_expression(pass, *access.tuple);
        },
        Expression::Tuple(tuple) => {
            law_kept_expressions(pass, tuple.elements);
        },
        _ => {},
    }
}

/// A pass that puts every expression back in its place reconstructs a
/// list of expressions to itself.
pub proof fn law_kept_expressions<R: ExpressionReconstructor>(pass: R, inputs: List<Expression>)
    requires
        keeps_expressions(pass),
    ensures
        reconstructed_expressions(pass, inputs) == (pass, inputs),
    decreases inputs,
{
    match inputs {
        List::Nil => {},
        List::Cons(head, tail) => {
            law_kept_expression(pass, *head);
            law_kept_expressions(pass, *tail);
        },
    }
}

/// A pass that puts every statement back in its place reconstructs a
/// statement to itself.
pub proof fn law_kept_statement<R: StatementReconstructor>(pass: R, input: Statement)
    requires
        keeps_statements(pass),
    ensures
        reconstructed_statement(pass, input) == (pass, input),
    decreases input,
{
    match input {
        Statement::Return(statement) => {
            law_kept_expression(pass, statement.expression);
        },
        Statement::Definition(definition) => {
            law_kept_expression(pass, definition.value);
        },
        Statement::Assign(assign) => {
            law_kept_expression(pass, assign.value);
        },
        Statement::Conditional(conditional) => {
            law_kept_expression(pass, conditional.condition);
            law_kept_block(pass, conditional.block);
            match conditional.next {
                Some(next) => law_kept_statement(pass, *next),
                None => {},
            }
        },
        Statement::Iteration(iteration) => {
            law_kept_expression(pass, iteration.start);
            law_kept_expression(pass, iteration.stop);
            law_kept_block(pass, iteration.block);
        },
        Statement::Console(console) => {
            match console.function {
                ConsoleFunction::Assert(expression) => {
                    law_kept_expression(pass, expression);
                },
                ConsoleFunction::AssertEq(left, right) => {
                    law_kept_expression(pass, left);
                    law_kept_expression(pass, right);
                },
                ConsoleFunction::AssertNeq(left, right) => {
                    law_kept_expression(pass, left);
                    law_kept_expression(pass, right);
                },
                ConsoleFunction::Error(args) => {
                    law_kept_expressions(pass, args.parameters);
                },
                ConsoleFunction::Log(args) => {
                    law_kept_expressions(pass, args.parameters);
                },
            }
            assert(reconstructed_console_function(pass, console.function) == (
                pass,
                console.function,
            ));
        },
        Statement::Decrement(decrement) => {
            law_kept_expression(pass, decrement.index);
            law_kept_expression(pass, decrement.amount);
        },
        Statement::Increment(increment) => {
            law_kept_expression(pass, increment.index);
            law_kept_expression(pass, increment.amount);
        },
        Statement::Finalize(finalize) => {
            law_kept_expressions(pass, finalize.arguments);
        },
        Statement::Block(block) => {
            law_kept_block(pass, block);
        },
    }
}

/// A pass that puts every statement back in its place reconstructs a
/// block to itself.
pub proof fn law_kept_block<R: StatementReconstructor>(pass: R, input: Block)
    requires
        keeps_statements(pass),
    ensures
        reconstructed_block(pass, input) == (pass, input),
    decreases input,
{
    law_kept_statements(pass, input.statements);
}

/// A pass that puts every statement back in its place reconstructs a list
/// of statements to itself.
pub proof fn law_kept_statements<R: StatementReconstructor>(pass: R, inputs: List<Statement>)
    requires
        keeps_statements(pass),
    ensures
        reconstructed_statements(pass, inputs) == (pass, inputs),
    decreases inputs,
{
    match inputs {
        List::Nil => {},
        List::Cons(head, tail) => {
            law_kept_statement(pass, *head);
            law_kept_statements(pass, *tail);
        },
    }
}

/// A pass that puts every function back in its place reconstructs a
/// function to itself.
pub proof fn law_kept_function<R: ProgramReconstructor>(pass: R, input: Function)
    requires
        keeps_programs(pass),
    ensures
        reconstructed_function(pass, input) == (pass, input),
{
    law_kept_block(pass, input.block);
    match input.finalize {
        Some(finalize) => law_kept_block(pass, finalize.block),
        None => {},
    }
}

/// A pass that puts every function back in its place reconstructs a list
/// of functions to itself.
pub proof fn law_kept_functions<R: ProgramReconstructor>(pass: R, inputs: List<Function>)
    requires
        keeps_programs(pass),
    ensures
        reconstructed_functions(pass, inputs) == (pass, inputs),
    decreases inputs,
{
    match inputs {
        List::Nil => {},
        List::Cons(head, tail) => {
            law_kept_function(pass, *head);
            law_kept_functions(pass, *tail);
        },
    }
}

/// A pass that puts every function back in its place reconstructs the
/// scopes of a program to themselves.
pub proof fn law_kept_program_scopes<R: ProgramReconstructor>(pass: R, inputs: List<ProgramScope>)
    requires
        keeps_programs(pass),
    ensures
        reconstructed_program_scopes(pass, inputs) == (pass, inputs),
    decreases inputs,
{
    match inputs {
        List::Nil => {},
        List::Cons(head, tail) => {
            law_kept_functions(pass, head.functions);
            law_kept_program_scopes(pass, *tail);
        },
    }
}

/// A pass that overrides nothing is the identity: it reconstructs every
/// program to itself and is itself unchanged.
pub proof fn law_kept_program<R: ProgramReconstructor>(pass: R, input: Program)
    requires
        keeps_programs(pass),
    ensures
        reconstructed_program(pass, input) == (pass, input),
{
    law_kept_program_scopes(pass, input.program_scopes);
}

/// The pass that changes nothing puts every node back in its place.
pub proof fn law_identity_keeps_programs()
    ensures
        keeps_programs(crate::identity::Identity),
{
}

/// Whether the pass looks at no expression: each of its methods for
/// expressions leaves the pass as it is.
pub open spec fn ignores_expressions<V: ExpressionVisitor>(visitor: V) -> bool {
    &&& forall|input: Identifier, additional: V::AdditionalInput| #[trigger]
        visitor.identifier_model(input, additional).0 == visitor
    &&& forall|input: LiteralExpression, additional: V::AdditionalInput| #[trigger]
        visitor.literal_model(input, additional).0 == visitor
    &&& forall|input: StructExpression, additional: V::AdditionalInput| #[trigger]
        visitor.struct_init_model(input, additional).0 == visitor
    &&& forall|
        input: BinaryExpression,
        additional: V::AdditionalInput,
        left: V::Output,
        right: V::Output,
    | #[trigger]
        visitor.binary_model(input, additional, left, right).0 == visitor
    &&& forall|input: UnaryExpression, additional: V::AdditionalInput, receiver: V::Output| #[trigger]
        visitor.unary_model(input, additional, receiver).0 == visitor
    &&& forall|
        input: TernaryExpression,
        additional: V::AdditionalInput,
        condition: V::Output,
        if_true: V::Output,
        if_false: V::Output,
    | #[trigger]
        visitor.ternary_model(input, additional, condition, if_true, if_false).0 == visitor
    &&& forall|input: CallExpression, additional: V::AdditionalInput, arguments: List<V::Output>| #[trigger]
        visitor.call_model(input, additional, arguments).0 == visitor
    &&& forall|input: TupleExpression, additional: V::AdditionalInput, elements: List<V::Output>| #[trigger]
        visitor.tuple_model(input, additional, elements).0 == visitor
    &&& forall|input: AccessExpression, additional: V::AdditionalInput, inner: List<V::Output>| #[trigger]
        visitor.access_model(input, additional, inner).0 == visitor
}

/// Whether the pass looks at no statement either.
pub open spec fn ignores_statements<V: StatementVisitor>(visitor: V) -> bool {
    &&& ignores_expressions(visitor)
    &&& forall|input: ReturnStatement| #[trigger] visitor.return_model(input).0 == visitor
    &&& forall|input: DefinitionStatement| #[trigger] visitor.definition_model(input).0 == visitor
    &&& forall|input: DefinitionStatement| #[trigger] visitor.definition_finished(input) == visitor
    &&& forall|input: AssignStatement| #[trigger] visitor.assign_model(input).0 == visitor
    &&& forall|input: ConditionalStatement| #[trigger]
        visitor.conditional_model(input).0 == visitor
    &&& forall|input: IterationStatement| #[trigger] visitor.iteration_model(input).0 == visitor
    &&& forall|input: ConsoleStatement| #[trigger] visitor.console_model(input).0 == visitor
    &&& forall|input: DecrementStatement| #[trigger] visitor.decrement_model(input).0 == visitor
    &&& forall|input: IncrementStatement| #[trigger] visitor.increment_model(input).0 == visitor
    &&& forall|input: FinalizeStatement| #[trigger] visitor.finalize_model(input).0 == visitor
    &&& forall|input: Block| #[trigger] visitor.block_model(input) == visitor
    &&& forall|input: Block| #[trigger] visitor.block_finished(input) == visitor
}

/// A pass that looks at no expression is the same after the visit of an
/// expression as before.
pub proof fn law_ignored_expression<V: ExpressionVisitor>(
    visitor: V,
    input: Expression,
    additional: V::AdditionalInput,
)
    requires
        ignores_expressions(visitor),
    ensures
        visited_expression(visitor, input, additional).0 == visitor,
    decreases input,
{
    match input {
        Expression::Binary(binary) => {
            law_ignored_expression(visitor, *binary.left, additional);
            law_ignored_expression(visitor, *binary.right, additional);
        },
        Expression::Unary(unary) => {
            law_ignored_expression(visitor, *unary.receiver, additional);
        },
        Expression::Ternary(ternary) => {
            law_ignored_expression(visitor, *ternary.condition, additional);
            law_ignored_expression(visitor, *ternary.if_true, additional);
            law_ignored_expression(visitor, *ternary.if_false, additional);
        },
        Expression::Call(call) => {
            law_ignored_expressions(visitor, call.arguments, additional);
        },
        Expression::Tuple(tuple) => {
            law_ignored_expressions(visitor, tuple.elements, additional);
        },
        Expression::Access(AccessExpression::AssociatedFunction(function)) => {
            law_ignored_expressions(visitor, function.args, V::no_input());
        },
        Expression::Access(AccessExpression::Member(member)) => {
            law_ignored_expression(visitor, *member.inner, additional);
        },
        Expression::Access(AccessExpression::Tuple(access)) => {
            law_ignored_expression(visitor, *access.tuple, additional);
        },
        _ => {},
    }
}

/// A pass that looks at no expression is the same after the visit of a
/// list of expressions as before.
pub proof fn law_ignored_expressions<V: ExpressionVisitor>(
    visitor: V,
    inputs: List<Expression>,
    additional: V::AdditionalInput,
)
    requires
        ignores_expressions(visitor),
    ensures
        visited_expressions(visitor, inputs, additional).0 == visitor,
    decreases inputs,
{
    match inputs {
        List::Nil => {},
        List::Cons(head, tail) => {
            law_ignored_expression(visitor, *head, additional);
            law_ignored_expressions(visitor, *tail, additional);
        },
    }
}

/// A pass that overrides nothing does nothing: it is the same after the
/// visit of a statement as before.
pub proof fn law_ignored_statement<V: StatementVisitor>(visitor: V, input: Statement)
    requires
        ignores_statements(visitor),
    ensures
        visited_statement(visitor, input) == visitor,
    decreases input,
{
    match input {
        Statement::Return(statement) => {
            match visitor.return_model(statement).1 {
                Some(additional) => law_ignored_expression(
                    visitor,
                    statement.expression,
                    additional,
                ),
                None => {},
            }
        },
        Statement::Definition(definition) => {
            match visitor.definition_model(definition).1 {
                Some(additional) => law_ignored_expression(visitor, definition.value, additional),
                None => {},
            }
        },
        Statement::Assign(assign) => {
            match visitor.assign_model(*assign).1 {
                Some(additional) => law_ignored_expression(visitor, assign.value, additional),
                None => {},
            }
        },
        Statement::Conditional(conditional) => {
            match visitor.conditional_model(conditional).1 {
                Some(additional) => law_ignored_expression(
                    visitor,
                    conditional.condition,
                    additional,
                ),
                None => {},
            }
            law_ignored_block(visitor, conditional.block);
            match conditional.next {
                Some(next) => law_ignored_statement(visitor, *next),
                None => {},
            }
        },
        Statement::Iteration(iteration) => {
            match visitor.iteration_model(*iteration).1 {
                Some(additional) => {
                    law_ignored_expression(visitor, iteration.start, additional);
                    law_ignored_expression(visitor, iteration.stop, additional);
                },
                None => {},
            }
            law_ignored_block(visitor, iteration.block);
        },
        Statement::Console(console) => {
            match visitor.console_model(console).1 {
                Some(additional) => match console.function {
                    ConsoleFunction::Assert(expression) => {
                        law_ignored_expression(visitor, expression, additional);
                    },
                    ConsoleFunction::AssertEq(left, right) => {
                        law_ignored_expression(visitor, left, additional);
                        law_ignored_expression(visitor, right, additional);
                    },
                    ConsoleFunction::AssertNeq(left, right) => {
                        law_ignored_expression(visitor, left, additional);
                        law_ignored_expression(visitor, right, additional);
                    },
                    ConsoleFunction::Error(args) => {
                        law_ignored_expressions(visitor, args.parameters, additional);
                    },
                    ConsoleFunction::Log(args) => {
                        law_ignored_expressions(visitor, args.parameters, additional);
                    },
                },
                None => {},
            }
        },
        Statement::Decrement(decrement) => {
            match visitor.decrement_model(decrement).1 {
                Some(additional) => {
                    law_ignored_expression(visitor, decrement.amount, additional);
                    law_ignored_expression(visitor, decrement.index, additional);
                },
                None => {},
            }
        },
        Statement::Increment(increment) => {
            match visitor.increment_model(increment).1 {
                Some(additional) => {
                    law_ignored_expression(visitor, increment.amount, additional);
                    law_ignored_expression(visitor, increment.index, additional);
                },
                None => {},
            }
        },
        Statement::Finalize(finalize) => {
            match visitor.finalize_model(finalize).1 {
                Some(additional) => law_ignored_expressions(
                    visitor,
                    finalize.arguments,
                    additional,
                ),
                None => {},
            }
        },
        Statement::Block(block) => {
            law_ignored_block(visitor, block);
        },
    }
}

/// A pass that overrides nothing is the same after the visit of a block
/// as before.
pub proof fn law_ignored_block<V: StatementVisitor>(visitor: V, input: Block)
    requires
        ignores_statements(visitor),
    ensures
        visited_block(visitor, input) == visitor,
    decreases input,
{
    law_ignored_statements(visitor, input.statements);
}

/// A pass that overrides nothing is the same after the visit of a list of
/// statements as before.
pub proof fn law_ignored_statements<V: StatementVisitor>(visitor: V, inputs: List<Statement>)
    requires
        ignores_statements(visitor),
    ensures
        visited_statements(visitor, inputs) == visitor,
    decreases inputs,
{
    match inputs {
        List::Nil => {},
        List::Cons(head, tail) => {
            law_ignored_statement(visitor, *head);
            law_ignored_statements(visitor, *tail);
        },
    }
}

} // verus!
