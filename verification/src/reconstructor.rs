//! Traversals that build a new tree.
//!
//! A reconstruction walks a tree from the leaves up. At every node it first
//! reconstructs the children, left to right, and then hands the node, built
//! anew from the reconstructed children, to the method of the pass for
//! that kind of node. The method returns the node that takes its place and,
//! for an expression, an additional output that travels up to the parent.
//!
//! A pass says what each of its methods does by a model: a function from
//! the state of the pass and the arguments to the new state and the result.
//! The models given here describe a pass that changes nothing. What a whole
//! reconstruction does is then a function as well, and the traversals are
//! proved to compute it.

use vstd::prelude::*;
use crate::expression::{
    AccessExpression,
    AssociatedFunction,
    BinaryExpression,
    CallExpression,
    ErrExpression,
    Expression,
    Identifier,
    LiteralExpression,
    MemberAccess,
    StructExpression,
    TernaryExpression,
    TupleAccess,
    TupleExpression,
    UnaryExpression,
};
use crate::list::List;
use crate::program::{Finalize, Function, Program, ProgramScope};
use crate::statement::{
    AssignStatement,
    Block,
    ConditionalStatement,
    ConsoleArgs,
    ConsoleFunction,
    ConsoleStatement,
    DecrementStatement,
    DefinitionStatement,
    FinalizeStatement,
    IncrementStatement,
    IterationStatement,
    ReturnStatement,
    Statement,
};

verus! {

/// A pass that rewrites expressions.
pub trait ExpressionReconstructor: Sized {
    /// What travels up from a reconstructed expression to its parent.
    type AdditionalOutput;

    /// What holds of the pass before and after every step.
    spec fn wf(&self) -> bool;

    /// The additional output of a node of which the pass has nothing to
    /// say.
    spec fn no_output() -> Self::AdditionalOutput;

    /// Whether the callee of a call is reconstructed like an argument.
    /// Where it is not, it is handed on as it stands.
    open spec fn callee_reconstructed(&self) -> bool {
        true
    }

    /// What `reconstruct_identifier` does.
    open spec fn identifier_model(&self, input: Identifier) -> (
        Self,
        (Expression, Self::AdditionalOutput),
    ) {
        (*self, (Expression::Identifier(input), Self::no_output()))
    }

    /// What `reconstruct_literal` does.
    open spec fn literal_model(&self, input: LiteralExpression) -> (
        Self,
        (Expression, Self::AdditionalOutput),
    ) {
        (*self, (Expression::Literal(input), Self::no_output()))
    }

    /// What `reconstruct_binary` does.
    open spec fn binary_model(
        &self,
        input: BinaryExpression,
        rebuilt: BinaryExpression,
        left: Self::AdditionalOutput,
        right: Self::AdditionalOutput,
    ) -> (Self, (Expression, Self::AdditionalOutput)) {
        (*self, (Expression::Binary(rebuilt), Self::no_output()))
    }

    /// What `reconstruct_unary` does.
    open spec fn unary_model(
        &self,
        input: UnaryExpression,
        rebuilt: UnaryExpression,
        receiver: Self::AdditionalOutput,
    ) -> (Self, (Expression, Self::AdditionalOutput)) {
        (*self, (Expression::Unary(rebuilt), Self::no_output()))
    }

    /// What `reconstruct_ternary` does.
    open spec fn ternary_model(&self, input: TernaryExpression, rebuilt: TernaryExpression) -> (
        Self,
        (Expression, Self::AdditionalOutput),
    ) {
        (*self, (Expression::Ternary(rebuilt), Self::no_output()))
    }

    /// What `reconstruct_call` does.
    open spec fn call_model(&self, input: CallExpression, rebuilt: CallExpression) -> (
        Self,
        (Expression, Self::AdditionalOutput),
    ) {
        (*self, (Expression::Call(rebuilt), Self::no_output()))
    }

    /// What `reconstruct_access` does.
    open spec fn access_model(&self, input: AccessExpression, rebuilt: AccessExpression) -> (
        Self,
        (Expression, Self::AdditionalOutput),
    ) {
        (*self, (Expression::Access(rebuilt), Self::no_output()))
    }

    /// What `reconstruct_struct_init` does.
    open spec fn struct_init_model(&self, input: StructExpression) -> (
        Self,
        (Expression, Self::AdditionalOutput),
    ) {
        (*self, (Expression::Struct(input), Self::no_output()))
    }

    /// What `reconstruct_tuple` does.
    open spec fn tuple_model(&self, input: TupleExpression, rebuilt: TupleExpression) -> (
        Self,
        (Expression, Self::AdditionalOutput),
    ) {
        (*self, (Expression::Tuple(rebuilt), Self::no_output()))
    }

    /// What `reconstruct_err` does.
    open spec fn err_model(&self, input: ErrExpression) -> (
        Self,
        (Expression, Self::AdditionalOutput),
    ) {
        (*self, (Expression::Error(input), Self::no_output()))
    }

    /// Tells whether the callee of a call is reconstructed.
    fn reconstructs_callee(&self) -> (reconstructed: bool)
        requires
            self.wf(),
        ensures
            reconstructed == self.callee_reconstructed(),
    ;

    /// Takes the place of an identifier.
    fn reconstruct_identifier(&mut self, input: Identifier) -> (result: (
        Expression,
        Self::AdditionalOutput,
    ))
        requires
            old(self).wf(),
        ensures
            final(self).wf(),
            (*final(self), result) == old(self).identifier_model(input),
    ;

    /// Takes the place of a literal.
    fn reconstruct_literal(&mut self, input: LiteralExpression) -> (result: (
        Expression,
        Self::AdditionalOutput,
    ))
        requires
            old(self).wf(),
        ensures
            final(self).wf(),
            (*final(self), result) == old(self).literal_model(input),
    ;

    /// Takes the place of a binary expression. `input` is the node as it
    /// was, `rebuilt` the node with its operands reconstructed, `left` and
    /// `right` what the operands gave as additional output.
    fn reconstruct_binary(
        &mut self,
        input: &BinaryExpression,
        rebuilt: BinaryExpression,
        left: Self::AdditionalOutput,
        right: Self::AdditionalOutput,
    ) -> (result: (Expression, Self::AdditionalOutput))
        requires
            old(self).wf(),
        ensures
            final(self).wf(),
            (*final(self), result) == old(self).binary_model(*input, rebuilt, left, right),
    ;

    /// Takes the place of a unary expression. `input` is the node as it
    /// was, `rebuilt` the node with its operand reconstructed, `receiver`
    /// what the operand gave as additional output.
    fn reconstruct_unary(
        &mut self,
        input: &UnaryExpression,
        rebuilt: UnaryExpression,
        receiver: Self::AdditionalOutput,
    ) -> (result: (Expression, Self::AdditionalOutput))
        requires
            old(self).wf(),
        ensures
            final(self).wf(),
            (*final(self), result) == old(self).unary_model(*input, rebuilt, receiver),
    ;

    /// Takes the place of a ternary expression.
    fn reconstruct_ternary(&mut self, input: &TernaryExpression, rebuilt: TernaryExpression) -> (result:
        (Expression, Self::AdditionalOutput))
        requires
            old(self).wf(),
        ensures
            final(self).wf(),
            (*final(self), result) == old(self).ternary_model(*input, rebuilt),
    ;

    /// Takes the place of a call.
    fn reconstruct_call(&mut self, input: &CallExpression, rebuilt: CallExpression) -> (result: (
        Expression,
        Self::AdditionalOutput,
    ))
        requires
            old(self).wf(),
        ensures
            final(self).wf(),
            (*final(self), result) == old(self).call_model(*input, rebuilt),
    ;

    /// Takes the place of an access.
    fn reconstruct_access(&mut self, input: &AccessExpression, rebuilt: AccessExpression) -> (result:
        (Expression, Self::AdditionalOutput))
        requires
            old(self).wf(),
        ensures
            final(self).wf(),
            (*final(self), result) == old(self).access_model(*input, rebuilt),
    ;

    /// Takes the place of a struct literal, whose members are not
    /// reconstructed.
    fn reconstruct_struct_init(&mut self, input: &StructExpression) -> (result: (
        Expression,
        Self::AdditionalOutput,
    ))
        requires
            old(self).wf(),
        ensures
            final(self).wf(),
            (*final(self), result) == old(self).struct_init_model(*input),
    ;

    /// Takes the place of a tuple.
    fn reconstruct_tuple(&mut self, input: &TupleExpression, rebuilt: TupleExpression) -> (result: (
        Expression,
        Self::AdditionalOutput,
    ))
        requires
            old(self).wf(),
        ensures
            final(self).wf(),
            (*final(self), result) == old(self).tuple_model(*input, rebuilt),
    ;

    /// Takes the place of a node that the parser left for an error.
    fn reconstruct_err(&mut self, input: ErrExpression) -> (result: (
        Expression,
        Self::AdditionalOutput,
    ))
        requires
            old(self).wf(),
        ensures
            final(self).wf(),
            (*final(self), result) == old(self).err_model(input),
    ;
}

/// What `reconstruct_expression` does: the state of the pass after the
/// reconstruction of `input`, the expression that takes its place, and the
/// additional output.
pub open spec fn reconstructed_expression<R: ExpressionReconstructor>(
    pass: R,
    input: Expression,
) -> (R, (Expression, R::AdditionalOutput))
    decreases input,
{
    match input {
        Expression::Identifier(identifier) => pass.identifier_model(identifier),
        Expression::Literal(literal) => pass.literal_model(literal),
        Expression::Binary(binary) => {
            let (pass, (left, left_output)) = reconstructed_expression(pass, *binary.left);
            let (pass, (right, right_output)) = reconstructed_expression(pass, *binary.right);
            pass.binary_model(
                binary,
                BinaryExpression {
                    left: Box::new(left),
                    right: Box::new(right),
                    op: binary.op,
                    span: binary.span,
                },
                left_output,
                right_output,
            )
        },
        Expression::Unary(unary) => {
            let (pass, (receiver, output)) = reconstructed_expression(pass, *unary.receiver);
            pass.unary_model(
                unary,
                UnaryExpression { receiver: Box::new(receiver), op: unary.op, span: unary.span },
                output,
            )
        },
        Expression::Ternary(ternary) => {
            let (pass, (condition, _)) = reconstructed_expression(pass, *ternary.condition);
            let (pass, (if_true, _)) = reconstructed_expression(pass, *ternary.if_true);
            let (pass, (if_false, _)) = reconstructed_expression(pass, *ternary.if_false);
            pass.ternary_model(
                ternary,
                TernaryExpression {
                    condition: Box::new(condition),
                    if_true: Box::new(if_true),
                    if_false: Box::new(if_false),
                    span: ternary.span,
                },
            )
        },
        Expression::Call(call) => {
            let (pass, function) = if pass.callee_reconstructed() {
                let (pass, (function, _)) = reconstructed_expression(pass, *call.function);
                (pass, function)
            } else {
                (pass, *call.function)
            };
            let (pass, arguments) = reconstructed_expressions(pass, call.arguments);
            pass.call_model(
                call,
                CallExpression { function: Box::new(function), arguments, span: call.span },
            )
        },
        Expression::Access(AccessExpression::AssociatedFunction(function)) => {
            let (pass, args) = reconstructed_expressions(pass, function.args);
            pass.access_model(
                AccessExpression::AssociatedFunction(function),
                AccessExpression::AssociatedFunction(
                    AssociatedFunction {
                        ty: function.ty,
                        name: function.name,
                        args,
                        span: function.span,
                    },
                ),
            )
        },
        Expression::Access(AccessExpression::Member(member)) => {
            let (pass, (inner, _)) = reconstructed_expression(pass, *member.inner);
            pass.access_model(
                AccessExpression::Member(member),
                AccessExpression::Member(
                    MemberAccess { inner: Box::new(inner), name: member.name, span: member.span },
                ),
            )
        },
        Expression::Access(AccessExpression::Tuple(access)) => {
            let (pass, (tuple, _)) = reconstructed_expression(pass, *access.tuple);
            pass.access_model(
                AccessExpression::Tuple(access),
                AccessExpression::Tuple(
                    TupleAccess { tuple: Box::new(tuple), index: access.index, span: access.span },
                ),
            )
        },
        Expression::Access(AccessExpression::AssociatedConstant(constant)) => pass.access_model(
            AccessExpression::AssociatedConstant(constant),
            AccessExpression::AssociatedConstant(constant),
        ),
        Expression::Struct(literal) => pass.struct_init_model(literal),
        Expression::Tuple(tuple) => {
            let (pass, elements) = reconstructed_expressions(pass, tuple.elements);
            pass.tuple_model(tuple, TupleExpression { elements, span: tuple.span })
        },
        Expression::Error(err) => pass.err_model(err),
    }
}

/// What `reconstruct_expressions` does: the expressions are reconstructed
/// one after the other, and their additional outputs are dropped.
pub open spec fn reconstructed_expressions<R: ExpressionReconstructor>(
    pass: R,
    inputs: List<Expression>,
) -> (R, List<Expression>)
    decreases inputs,
{
    match inputs {
        List::Nil => (pass, List::Nil),
        List::Cons(head, tail) => {
            let (pass, (first, _)) = reconstructed_expression(pass, *head);
            let (pass, rest) = reconstructed_expressions(pass, *tail);
            (pass, List::Cons(Box::new(first), Box::new(rest)))
        },
    }
}

/// Reconstructs an expression: its children first, from left to right, and
/// then the node itself by the method of the pass for its kind.
pub fn reconstruct_expression<R: ExpressionReconstructor>(pass: &mut R, input: &Expression) -> (result:
    (Expression, R::AdditionalOutput))
    requires
        old(pass).wf(),
    ensures
        final(pass).wf(),
        (*final(pass), result) == reconstructed_expression(*old(pass), *input),
    decreases input,
{
    match input {
        Expression::Identifier(identifier) => pass.reconstruct_identifier(*identifier),
        Expression::Literal(literal) => pass.reconstruct_literal(*literal),
        Expression::Binary(binary) => {
            let (left, left_output) = reconstruct_expression(pass, &binary.left);
            let (right, right_output) = reconstruct_expression(pass, &binary.right);
            pass.reconstruct_binary(
                binary,
                BinaryExpression {
                    left: Box::new(left),
                    right: Box::new(right),
                    op: binary.op,
                    span: binary.span,
                },
                left_output,
                right_output,
            )
        },
        Expression::Unary(unary) => {
            let (receiver, output) = reconstruct_expression(pass, &unary.receiver);
            pass.reconstruct_unary(
                unary,
                UnaryExpression { receiver: Box::new(receiver), op: unary.op, span: unary.span },
                output,
            )
        },
        Expression::Ternary(ternary) => {
            let (condition, _) = reconstruct_expression(pass, &ternary.condition);
            let (if_true, _) = reconstruct_expression(pass, &ternary.if_true);
            let (if_false, _) = reconstruct_expression(pass, &ternary.if_false);
            pass.reconstruct_ternary(
                ternary,
                TernaryExpression {
                    condition: Box::new(condition),
                    if_true: Box::new(if_true),
                    if_false: Box::new(if_false),
                    span: ternary.span,
                },
            )
        },
        Expression::Call(call) => {
            let function = if pass.reconstructs_callee() {
                reconstruct_expression(pass, &call.function).0
            } else {
                call.function.duplicate()
            };
            let arguments = reconstruct_expressions(pass, &call.arguments);
            pass.reconstruct_call(
                call,
                CallExpression { function: Box::new(function), arguments, span: call.span },
            )
        },
        Expression::Access(access) => {
            let rebuilt = match access {
                AccessExpression::AssociatedFunction(function) => {
                    let args = reconstruct_expressions(pass, &function.args);
                    AccessExpression::AssociatedFunction(
                        AssociatedFunction {
                            ty: function.ty,
                            name: function.name,
                            args,
                            span: function.span,
                        },
                    )
                },
                AccessExpression::Member(member) => {
                    let (inner, _) = reconstruct_expression(pass, &member.inner);
                    AccessExpression::Member(
                        MemberAccess {
                            inner: Box::new(inner),
                            name: member.name,
                            span: member.span,
                        },
                    )
                },
                AccessExpression::Tuple(tuple_access) => {
                    let (tuple, _) = reconstruct_expression(pass, &tuple_access.tuple);
                    AccessExpression::Tuple(
                        TupleAccess {
                            tuple: Box::new(tuple),
                            index: tuple_access.index,
                            span: tuple_access.span,
                        },
                    )
                },
                AccessExpression::AssociatedConstant(constant) => {
                    AccessExpression::AssociatedConstant(*constant)
                },
            };
            pass.reconstruct_access(access, rebuilt)
        },
        Expression::Struct(literal) => pass.reconstruct_struct_init(literal),
        Expression::Tuple(tuple) => {
            let elements = reconstruct_expressions(pass, &tuple.elements);
            pass.reconstruct_tuple(tuple, TupleExpression { elements, span: tuple.span })
        },
        Expression::Error(err) => pass.reconstruct_err(*err),
    }
}

/// Reconstructs the expressions of a list one after the other. Their
/// additional outputs are dropped.
pub fn reconstruct_expressions<R: ExpressionReconstructor>(pass: &mut R, inputs: &List<Expression>) -> (result:
    List<Expression>)
    requires
        old(pass).wf(),
    ensures
        final(pass).wf(),
        (*final(pass), result) == reconstructed_expressions(*old(pass), *inputs),
    decreases inputs,
{
    match inputs {
        List::Nil => List::Nil,
        List::Cons(head, tail) => {
            let (first, _) = reconstruct_expression(pass, head);
            let rest = reconstruct_expressions(pass, tail);
            List::Cons(Box::new(first), Box::new(rest))
        },
    }
}

/// A pass that rewrites statements.
pub trait StatementReconstructor: ExpressionReconstructor {
    /// What `reconstruct_return` does.
    open spec fn return_model(&self, rebuilt: ReturnStatement, value: Self::AdditionalOutput) -> (
        Self,
        Statement,
    ) {
        (*self, Statement::Return(rebuilt))
    }

    /// What `reconstruct_definition` does.
    open spec fn definition_model(
        &self,
        rebuilt: DefinitionStatement,
        value: Self::AdditionalOutput,
    ) -> (Self, Statement) {
        (*self, Statement::Definition(rebuilt))
    }

    /// What `reconstruct_assign` does.
    open spec fn assign_model(&self, rebuilt: AssignStatement, value: Self::AdditionalOutput) -> (
        Self,
        Statement,
    ) {
        (*self, Statement::Assign(Box::new(rebuilt)))
    }

    /// What `reconstruct_conditional` does.
    open spec fn conditional_model(&self, rebuilt: ConditionalStatement) -> (Self, Statement) {
        (*self, Statement::Conditional(rebuilt))
    }

    /// What `reconstruct_iteration` does.
    open spec fn iteration_model(&self, rebuilt: IterationStatement) -> (Self, Statement) {
        (*self, Statement::Iteration(Box::new(rebuilt)))
    }

    /// What `reconstruct_console` does.
    open spec fn console_model(&self, rebuilt: ConsoleStatement) -> (Self, Statement) {
        (*self, Statement::Console(rebuilt))
    }

    /// What `reconstruct_decrement` does.
    open spec fn decrement_model(&self, rebuilt: DecrementStatement) -> (Self, Statement) {
        (*self, Statement::Decrement(rebuilt))
    }

    /// What `reconstruct_increment` does.
    open spec fn increment_model(&self, rebuilt: IncrementStatement) -> (Self, Statement) {
        (*self, Statement::Increment(rebuilt))
    }

    /// What `reconstruct_finalize` does.
    open spec fn finalize_model(&self, rebuilt: FinalizeStatement) -> (Self, Statement) {
        (*self, Statement::Finalize(rebuilt))
    }

    /// What `reconstruct_block` does.
    open spec fn block_model(&self, rebuilt: Block) -> (Self, Block) {
        (*self, rebuilt)
    }

    /// Takes the place of a return statement. `rebuilt` is the statement
    /// with its expression reconstructed, `value` what the expression gave
    /// as additional output.
    fn reconstruct_return(&mut self, rebuilt: ReturnStatement, value: Self::AdditionalOutput) -> (result:
        Statement)
        requires
            old(self).wf(),
        ensures
            final(self).wf(),
            (*final(self), result) == old(self).return_model(rebuilt, value),
    ;

    /// Takes the place of a definition. `value` is what the initial value
    /// gave as additional output.
    fn reconstruct_definition(
        &mut self,
        rebuilt: DefinitionStatement,
        value: Self::AdditionalOutput,
    ) -> (result: Statement)
        requires
            old(self).wf(),
        ensures
            final(self).wf(),
            (*final(self), result) == old(self).definition_model(rebuilt, value),
    ;

    /// Takes the place of an assignment. `value` is what the assigned
    /// expression gave as additional output.
    fn reconstruct_assign(&mut self, rebuilt: AssignStatement, value: Self::AdditionalOutput) -> (result:
        Statement)
        requires
            old(self).wf(),
        ensures
            final(self).wf(),
            (*final(self), result) == old(self).assign_model(rebuilt, value),
    ;

    /// Takes the place of a conditional.
    fn reconstruct_conditional(&mut self, rebuilt: ConditionalStatement) -> (result: Statement)
        requires
            old(self).wf(),
        ensures
            final(self).wf(),
            (*final(self), result) == old(self).conditional_model(rebuilt),
    ;

    /// Takes the place of a loop.
    fn reconstruct_iteration(&mut self, rebuilt: IterationStatement) -> (result: Statement)
        requires
            old(self).wf(),
        ensures
            final(self).wf(),
            (*final(self), result) == old(self).iteration_model(rebuilt),
    ;

    /// Takes the place of a console statement.
    fn reconstruct_console(&mut self, rebuilt: ConsoleStatement) -> (result: Statement)
        requires
            old(self).wf(),
        ensures
            final(self).wf(),
            (*final(self), result) == old(self).console_model(rebuilt),
    ;

    /// Takes the place of a decrement.
    fn reconstruct_decrement(&mut self, rebuilt: DecrementStatement) -> (result: Statement)
        requires
            old(self).wf(),
        ensures
            final(self).wf(),
            (*final(self), result) == old(self).decrement_model(rebuilt),
    ;

    /// Takes the place of an increment.
    fn reconstruct_increment(&mut self, rebuilt: IncrementStatement) -> (result: Statement)
        requires
            old(self).wf(),
        ensures
            final(self).wf(),
            (*final(self), result) == old(self).increment_model(rebuilt),
    ;

    /// Takes the place of a finalize statement.
    fn reconstruct_finalize(&mut self, rebuilt: FinalizeStatement) -> (result: Statement)
        requires
            old(self).wf(),
        ensures
            final(self).wf(),
            (*final(self), result) == old(self).finalize_model(rebuilt),
    ;

    /// Takes the place of a block.
    fn reconstruct_block(&mut self, rebuilt: Block) -> (result: Block)
        requires
            old(self).wf(),
        ensures
            final(self).wf(),
            (*final(self), result) == old(self).block_model(rebuilt),
    ;
}

/// What the reconstruction of a console function gives: every expression
/// in it is reconstructed, from left to right.
pub open spec fn reconstructed_console_function<R: StatementReconstructor>(
    pass: R,
    input: ConsoleFunction,
) -> (R, ConsoleFunction) {
    match input {
        ConsoleFunction::Assert(expression) => {
            let (pass, (expression, _)) = reconstructed_expression(pass, expression);
            (pass, ConsoleFunction::Assert(expression))
        },
        ConsoleFunction::AssertEq(left, right) => {
            let (pass, (left, _)) = reconstructed_expression(pass, left);
            let (pass, (right, _)) = reconstructed_expression(pass, right);
            (pass, ConsoleFunction::AssertEq(left, right))
        },
        ConsoleFunction::AssertNeq(left, right) => {
            let (pass, (left, _)) = reconstructed_expression(pass, left);
            let (pass, (right, _)) = reconstructed_expression(pass, right);
            (pass, ConsoleFunction::AssertNeq(left, right))
        },
        ConsoleFunction::Error(args) => {
            let (pass, parameters) = reconstructed_expressions(pass, args.parameters);
            (
                pass,
                ConsoleFunction::Error(
                    ConsoleArgs { string: args.string, parameters, span: args.span },
                ),
            )
        },
        ConsoleFunction::Log(args) => {
            let (pass, parameters) = reconstructed_expressions(pass, args.parameters);
            (
                pass,
                ConsoleFunction::Log(
                    ConsoleArgs { string: args.string, parameters, span: args.span },
                ),
            )
        },
    }
}

/// What `reconstruct_statement` does.
pub open spec fn reconstructed_statement<R: StatementReconstructor>(pass: R, input: Statement) -> (
    R,
    Statement,
)
    decreases input,
{
    match input {
        Statement::Return(statement) => {
            let (pass, (expression, value)) = reconstructed_expression(pass, statement.expression);
            pass.return_model(ReturnStatement { expression, span: statement.span }, value)
        },
        Statement::Definition(definition) => {
            let (pass, (value, output)) = reconstructed_expression(pass, definition.value);
            pass.definition_model(
                DefinitionStatement {
                    declaration_type: definition.declaration_type,
                    variable_name: definition.variable_name,
                    type_: definition.type_,
                    value,
                    span: definition.span,
                },
                output,
            )
        },
        Statement::Assign(assign) => {
            let (pass, (value, output)) = reconstructed_expression(pass, assign.value);
            pass.assign_model(
                AssignStatement {
                    operation: assign.operation,
                    place: assign.place,
                    value,
                    span: assign.span,
                },
                output,
            )
        },
        Statement::Conditional(conditional) => {
            let (pass, (condition, _)) = reconstructed_expression(pass, conditional.condition);
            let (pass, block) = reconstructed_block(pass, conditional.block);
            let (pass, next) = match conditional.next {
                Some(next) => {
                    let (pass, next) = reconstructed_statement(pass, *next);
                    (pass, Some(Box::new(next)))
                },
                None => (pass, None),
            };
            pass.conditional_model(
                ConditionalStatement { condition, block, next, span: conditional.span },
            )
        },
        Statement::Iteration(iteration) => {
            let (pass, (start, _)) = reconstructed_expression(pass, iteration.start);
            let (pass, (stop, _)) = reconstructed_expression(pass, iteration.stop);
            let (pass, block) = reconstructed_block(pass, iteration.block);
            pass.iteration_model(
                IterationStatement {
                    variable: iteration.variable,
                    type_: iteration.type_,
                    start,
                    stop,
                    inclusive: iteration.inclusive,
                    block,
                    span: iteration.span,
                },
            )
        },
        Statement::Console(console) => {
            let (pass, function) = reconstructed_console_function(pass, console.function);
            pass.console_model(ConsoleStatement { function, span: console.span })
        },
        Statement::Decrement(decrement) => {
            let (pass, (index, _)) = reconstructed_expression(pass, decrement.index);
            let (pass, (amount, _)) = reconstructed_expression(pass, decrement.amount);
            pass.decrement_model(
                DecrementStatement {
                    mapping: decrement.mapping,
                    index,
                    amount,
                    span: decrement.span,
                },
            )
        },
        Statement::Increment(increment) => {
            let (pass, (index, _)) = reconstructed_expression(pass, increment.index);
            let (pass, (amount, _)) = reconstructed_expression(pass, increment.amount);
            pass.increment_model(
                IncrementStatement {
                    mapping: increment.mapping,
                    index,
                    amount,
                    span: increment.span,
                },
            )
        },
        Statement::Finalize(finalize) => {
            let (pass, arguments) = reconstructed_expressions(pass, finalize.arguments);
            pass.finalize_model(FinalizeStatement { arguments, span: finalize.span })
        },
        Statement::Block(block) => {
            let (pass, block) = reconstructed_block(pass, block);
            (pass, Statement::Block(block))
        },
    }
}

/// What `reconstruct_block` does: the statements are reconstructed in
/// their order, and the block of the results is handed to the pass.
pub open spec fn reconstructed_block<R: StatementReconstructor>(pass: R, input: Block) -> (R, Block)
    decreases input,
{
    let (pass, statements) = reconstructed_statements(pass, input.statements);
    pass.block_model(Block { statements, span: input.span })
}

/// What `reconstruct_statements` does.
pub open spec fn reconstructed_statements<R: StatementReconstructor>(
    pass: R,
    inputs: List<Statement>,
) -> (R, List<Statement>)
    decreases inputs,
{
    match inputs {
        List::Nil => (pass, List::Nil),
        List::Cons(head, tail) => {
            let (pass, first) = reconstructed_statement(pass, *head);
            let (pass, rest) = reconstructed_statements(pass, *tail);
            (pass, List::Cons(Box::new(first), Box::new(rest)))
        },
    }
}

/// Reconstructs every expression of a console function, from left to
/// right.
pub fn reconstruct_console_function<R: StatementReconstructor>(pass: &mut R, input: ConsoleFunction) -> (result:
    ConsoleFunction)
    requires
        old(pass).wf(),
    ensures
        final(pass).wf(),
        (*final(pass), result) == reconstructed_console_function(*old(pass), input),
{
    match input {
        ConsoleFunction::Assert(expression) => {
            let (expression, _) = reconstruct_expression(pass, &expression);
            ConsoleFunction::Assert(expression)
        },
        ConsoleFunction::AssertEq(left, right) => {
            let (left, _) = reconstruct_expression(pass, &left);
            let (right, _) = reconstruct_expression(pass, &right);
            ConsoleFunction::AssertEq(left, right)
        },
        ConsoleFunction::AssertNeq(left, right) => {
            let (left, _) = reconstruct_expression(pass, &left);
            let (right, _) = reconstruct_expression(pass, &right);
            ConsoleFunction::AssertNeq(left, right)
        },
        ConsoleFunction::Error(args) => {
            let parameters = reconstruct_expressions(pass, &args.parameters);
            ConsoleFunction::Error(ConsoleArgs { string: args.string, parameters, span: args.span })
        },
        ConsoleFunction::Log(args) => {
            let parameters = reconstruct_expressions(pass, &args.parameters);
            ConsoleFunction::Log(ConsoleArgs { string: args.string, parameters, span: args.span })
        },
    }
}

/// Reconstructs a statement: its expressions and the statements inside it
/// first, in their order, and then the statement itself by the method of
/// the pass for its kind. The statement of a block is the reconstructed
/// block.
pub fn reconstruct_statement<R: StatementReconstructor>(pass: &mut R, input: Statement) -> (result:
    Statement)
    requires
        old(pass).wf(),
    ensures
        final(pass).wf(),
        (*final(pass), result) == reconstructed_statement(*old(pass), input),
    decreases input,
{
    match input {
        Statement::Return(statement) => {
            let (expression, value) = reconstruct_expression(pass, &statement.expression);
            pass.reconstruct_return(ReturnStatement { expression, span: statement.span }, value)
        },
        Statement::Definition(definition) => {
            let (value, output) = reconstruct_expression(pass, &definition.value);
            pass.reconstruct_definition(
                DefinitionStatement {
                    declaration_type: definition.declaration_type,
                    variable_name: definition.variable_name,
                    type_: definition.type_,
                    value,
                    span: definition.span,
                },
                output,
            )
        },
        Statement::Assign(assign) => {
            let (value, output) = reconstruct_expression(pass, &assign.value);
            pass.reconstruct_assign(
                AssignStatement {
                    operation: assign.operation,
                    place: assign.place,
                    value,
                    span: assign.span,
                },
                output,
            )
        },
        Statement::Conditional(conditional) => {
            let (condition, _) = reconstruct_expression(pass, &conditional.condition);
            let block = reconstruct_block(pass, conditional.block);
            let next = match conditional.next {
                Some(next) => Some(Box::new(reconstruct_statement(pass, *next))),
                None => None,
            };
            pass.reconstruct_conditional(
                ConditionalStatement { condition, block, next, span: conditional.span },
            )
        },
        Statement::Iteration(iteration) => {
            let iteration = *iteration;
            let (start, _) = reconstruct_expression(pass, &iteration.start);
            let (stop, _) = reconstruct_expression(pass, &iteration.stop);
            let block = reconstruct_block(pass, iteration.block);
            pass.reconstruct_iteration(
                IterationStatement {
                    variable: iteration.variable,
                    type_: iteration.type_,
                    start,
                    stop,
                    inclusive: iteration.inclusive,
                    block,
                    span: iteration.span,
                },
            )
        },
        Statement::Console(console) => {
            let function = reconstruct_console_function(pass, console.function);
            pass.reconstruct_console(ConsoleStatement { function, span: console.span })
        },
        Statement::Decrement(decrement) => {
            let (index, _) = reconstruct_expression(pass, &decrement.index);
            let (amount, _) = reconstruct_expression(pass, &decrement.amount);
            pass.reconstruct_decrement(
                DecrementStatement {
                    mapping: decrement.mapping,
                    index,
                    amount,
                    span: decrement.span,
                },
            )
        },
        Statement::Increment(increment) => {
            let (index, _) = reconstruct_expression(pass, &increment.index);
            let (amount, _) = reconstruct_expression(pass, &increment.amount);
            pass.reconstruct_increment(
                IncrementStatement {
                    mapping: increment.mapping,
                    index,
                    amount,
                    span: increment.span,
                },
            )
        },
        Statement::Finalize(finalize) => {
            let arguments = reconstruct_expressions(pass, &finalize.arguments);
            pass.reconstruct_finalize(FinalizeStatement { arguments, span: finalize.span })
        },
        Statement::Block(block) => Statement::Block(reconstruct_block(pass, block)),
    }
}

/// Reconstructs a block: its statements in their order, and then the block
/// itself by the method of the pass.
pub fn reconstruct_block<R: StatementReconstructor>(pass: &mut R, input: Block) -> (result: Block)
    requires
        old(pass).wf(),
    ensures
        final(pass).wf(),
        (*final(pass), result) == reconstructed_block(*old(pass), input),
    decreases input,
{
    let statements = reconstruct_statements(pass, input.statements);
    pass.reconstruct_block(Block { statements, span: input.span })
}

/// Reconstructs the statements of a list in their order.
pub fn reconstruct_statements<R: StatementReconstructor>(pass: &mut R, inputs: List<Statement>) -> (result:
    List<Statement>)
    requires
        old(pass).wf(),
    ensures
        final(pass).wf(),
        (*final(pass), result) == reconstructed_statements(*old(pass), inputs),
    decreases inputs,
{
    match inputs {
        List::Nil => List::Nil,
        List::Cons(head, tail) => {
            let first = reconstruct_statement(pass, *head);
            let rest = reconstruct_statements(pass, *tail);
            List::Cons(Box::new(first), Box::new(rest))
        },
    }
}

/// A pass that rewrites programs.
pub trait ProgramReconstructor: StatementReconstructor {
    /// What `reconstruct_function` does.
    open spec fn function_model(&self, rebuilt: Function) -> (Self, Function) {
        (*self, rebuilt)
    }

    /// Takes the place of a function. `rebuilt` is the function with its
    /// body and its finalize block reconstructed; its name, parameters,
    /// result type and core mapping are those of the function as it was.
    fn reconstruct_function(&mut self, rebuilt: Function) -> (result: Function)
        requires
            old(self).wf(),
        ensures
            final(self).wf(),
            (*final(self), result) == old(self).function_model(rebuilt),
    ;
}

/// What `reconstruct_function` does: the body is reconstructed, then the
/// finalize block if there is one, and the function built of them is
/// handed to the pass.
pub open spec fn reconstructed_function<R: ProgramReconstructor>(pass: R, input: Function) -> (
    R,
    Function,
) {
    let (pass, block) = reconstructed_block(pass, input.block);
    let (pass, finalize) = match input.finalize {
        Some(finalize) => {
            let (pass, block) = reconstructed_block(pass, finalize.block);
            (
                pass,
                Some(
                    Finalize {
                        input: finalize.input,
                        output: finalize.output,
                        block,
                        span: finalize.span,
                    },
                ),
            )
        },
        None => (pass, None),
    };
    pass.function_model(
        Function {
            identifier: input.identifier,
            input: input.input,
            output: input.output,
            core_mapping: input.core_mapping,
            block,
            finalize,
            span: input.span,
        },
    )
}

/// What `reconstruct_functions` does.
pub open spec fn reconstructed_functions<R: ProgramReconstructor>(pass: R, inputs: List<Function>) -> (
    R,
    List<Function>,
)
    decreases inputs,
{
    match inputs {
        List::Nil => (pass, List::Nil),
        List::Cons(head, tail) => {
            let (pass, first) = reconstructed_function(pass, *head);
            let (pass, rest) = reconstructed_functions(pass, *tail);
            (pass, List::Cons(Box::new(first), Box::new(rest)))
        },
    }
}

/// What `reconstruct_program_scopes` does: in every scope the functions
/// are reconstructed in their order; structs and mappings stay.
pub open spec fn reconstructed_program_scopes<R: ProgramReconstructor>(
    pass: R,
    inputs: List<ProgramScope>,
) -> (R, List<ProgramScope>)
    decreases inputs,
{
    match inputs {
        List::Nil => (pass, List::Nil),
        List::Cons(head, tail) => {
            let (pass, functions) = reconstructed_functions(pass, head.functions);
            let (pass, rest) = reconstructed_program_scopes(pass, *tail);
            (
                pass,
                List::Cons(
                    Box::new(
                        ProgramScope {
                            name: head.name,
                            structs: head.structs,
                            mappings: head.mappings,
                            functions,
                            span: head.span,
                        },
                    ),
                    Box::new(rest),
                ),
            )
        },
    }
}

/// What `reconstruct_program` does: the functions of every scope are
/// reconstructed, scope by scope; the name and the imports stay.
pub open spec fn reconstructed_program<R: ProgramReconstructor>(pass: R, input: Program) -> (
    R,
    Program,
) {
    let (pass, program_scopes) = reconstructed_program_scopes(pass, input.program_scopes);
    (pass, Program { name: input.name, imports: input.imports, program_scopes })
}

/// Reconstructs a function: its body, then its finalize block if it has
/// one, and then the function itself by the method of the pass.
pub fn reconstruct_function<R: ProgramReconstructor>(pass: &mut R, input: Function) -> (result:
    Function)
    requires
        old(pass).wf(),
    ensures
        final(pass).wf(),
        (*final(pass), result) == reconstructed_function(*old(pass), input),
{
    let block = reconstruct_block(pass, input.block);
    let finalize = match input.finalize {
        Some(finalize) => {
            let block = reconstruct_block(pass, finalize.block);
            Some(
                Finalize {
                    input: finalize.input,
                    output: finalize.output,
                    block,
                    span: finalize.span,
                },
            )
        },
        None => None,
    };
    pass.reconstruct_function(
        Function {
            identifier: input.identifier,
            input: input.input,
            output: input.output,
            core_mapping: input.core_mapping,
            block,
            finalize,
            span: input.span,
        },
    )
}

/// Reconstructs the functions of a list in their order.
pub fn reconstruct_functions<R: ProgramReconstructor>(pass: &mut R, inputs: List<Function>) -> (result:
    List<Function>)
    requires
        old(pass).wf(),
    ensures
        final(pass).wf(),
        (*final(pass), result) == reconstructed_functions(*old(pass), inputs),
    decreases inputs,
{
    match inputs {
        List::Nil => List::Nil,
        List::Cons(head, tail) => {
            let first = reconstruct_function(pass, *head);
            let rest = reconstruct_functions(pass, *tail);
            List::Cons(Box::new(first), Box::new(rest))
        },
    }
}

/// Reconstructs the functions of every scope of a list, scope by scope.
pub fn reconstruct_program_scopes<R: ProgramReconstructor>(pass: &mut R, inputs: List<ProgramScope>) -> (result:
    List<ProgramScope>)
    requires
        old(pass).wf(),
    ensures
        final(pass).wf(),
        (*final(pass), result) == reconstructed_program_scopes(*old(pass), inputs),
    decreases inputs,
{
    match inputs {
        List::Nil => List::Nil,
        List::Cons(head, tail) => {
            let head = *head;
            let functions = reconstruct_functions(pass, head.functions);
            let rest = reconstruct_program_scopes(pass, *tail);
            List::Cons(
                Box::new(
                    ProgramScope {
                        name: head.name,
                        structs: head.structs,
                        mappings: head.mappings,
                        functions,
                        span: head.span,
                    },
                ),
                Box::new(rest),
            )
        },
    }
}

/// Reconstructs a program: the functions of all its scopes. The name and
/// the imports pass through unchanged.
pub fn reconstruct_program<R: ProgramReconstructor>(pass: &mut R, input: Program) -> (result:
    Program)
    requires
        old(pass).wf(),
    ensures
        final(pass).wf(),
        (*final(pass), result) == reconstructed_program(*old(pass), input),
{
    let program_scopes = reconstruct_program_scopes(pass, input.program_scopes);
    Program { name: input.name, imports: input.imports, program_scopes }
}

} // verus!
