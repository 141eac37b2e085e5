//! Traversals that read a tree.
//!
//! A visit walks a tree from the root down and hands a context to every
//! expression on the way. For an expression, the children are visited
//! first, from left to right, with the context of their parent; then the
//! method of the pass for that kind of node is called with what the
//! children gave. For a statement, the method of the pass is called first;
//! it returns the context for the expressions of the statement, or `None`
//! to leave them unvisited. Blocks inside a statement are always visited.
//!
//! A pass says what each of its methods does by a model: a function from
//! the state of the pass and the arguments to the new state and the result.
//! The models given here describe a pass that does nothing. What a whole
//! visit does is then a function as well, and the traversals are proved to
//! compute it.
//!
//! No visit may meet an `Error` node: the traversals take only trees that
//! are `error_free`.

use vstd::prelude::*;
use crate::expression::{
    AccessExpression,
    BinaryExpression,
    CallExpression,
    Expression,
    Identifier,
    LiteralExpression,
    StructExpression,
    TernaryExpression,
    TupleExpression,
    UnaryExpression,
    all_error_free,
};
use crate::list::List;
use crate::program::{
    Function,
    Import,
    Imports,
    Mapping,
    Program,
    ProgramScope,
    Struct,
    all_functions_error_free,
    all_imports_error_free,
    all_scopes_error_free,
};
use crate::statement::{
    AssignStatement,
    Block,
    ConditionalStatement,
    ConsoleFunction,
    ConsoleStatement,
    DecrementStatement,
    DefinitionStatement,
    FinalizeStatement,
    IncrementStatement,
    IterationStatement,
    ReturnStatement,
    Statement,
    all_statements_error_free,
};

verus! {

/// A pass that reads expressions.
pub trait ExpressionVisitor: Sized {
    /// The context that a visit hands down to an expression.
    type AdditionalInput;

    /// What the visit of an expression gives.
    type Output;

    /// What holds of the pass before and after every step.
    spec fn wf(&self) -> bool;

    /// The context for an expression whose parent has none to give.
    spec fn no_input() -> Self::AdditionalInput;

    /// What the visit of a node gives of which the pass has nothing to say.
    spec fn no_output() -> Self::Output;

    /// What `visit_identifier` does.
    open spec fn identifier_model(&self, input: Identifier, additional: Self::AdditionalInput) -> (
        Self,
        Self::Output,
    ) {
        (*self, Self::no_output())
    }

    /// What `visit_literal` does.
    open spec fn literal_model(
        &self,
        input: LiteralExpression,
        additional: Self::AdditionalInput,
    ) -> (Self, Self::Output) {
        (*self, Self::no_output())
    }

    /// What `visit_struct_init` does.
    open spec fn struct_init_model(
        &self,
        input: StructExpression,
        additional: Self::AdditionalInput,
    ) -> (Self, Self::Output) {
        (*self, Self::no_output())
    }

    /// What `visit_binary` does.
    open spec fn binary_model(
        &self,
        input: BinaryExpression,
        additional: Self::AdditionalInput,
        left: Self::Output,
        right: Self::Output,
    ) -> (Self, Self::Output) {
        (*self, Self::no_output())
    }

    /// What `visit_unary` does.
    open spec fn unary_model(
        &self,
        input: UnaryExpression,
        additional: Self::AdditionalInput,
        receiver: Self::Output,
    ) -> (Self, Self::Output) {
        (*self, Self::no_output())
    }

    /// What `visit_ternary` does.
    open spec fn ternary_model(
        &self,
        input: TernaryExpression,
        additional: Self::AdditionalInput,
        condition: Self::Output,
        if_true: Self::Output,
        if_false: Self::Output,
    ) -> (Self, Self::Output) {
        (*self, Self::no_output())
    }

    /// What `visit_call` does.
    open spec fn call_model(
        &self,
        input: CallExpression,
        additional: Self::AdditionalInput,
        arguments: List<Self::Output>,
    ) -> (Self, Self::Output) {
        (*self, Self::no_output())
    }

    /// What `visit_tuple` does.
    open spec fn tuple_model(
        &self,
        input: TupleExpression,
        additional: Self::AdditionalInput,
        elements: List<Self::Output>,
    ) -> (Self, Self::Output) {
        (*self, Self::no_output())
    }

    /// What `visit_access` does.
    open spec fn access_model(
        &self,
        input: AccessExpression,
        additional: Self::AdditionalInput,
        inner: List<Self::Output>,
    ) -> (Self, Self::Output) {
        (*self, Self::no_output())
    }

    /// The context for an expression whose parent has none to give.
    fn default_input(&self) -> (additional: Self::AdditionalInput)
        requires
            self.wf(),
        ensures
            additional == Self::no_input(),
    ;

    /// Visits an identifier.
    fn visit_identifier(&mut self, input: &Identifier, additional: &Self::AdditionalInput) -> (output:
        Self::Output)
        requires
            old(self).wf(),
        ensures
            final(self).wf(),
            (*final(self), output) == old(self).identifier_model(*input, *additional),
    ;

    /// Visits a literal.
    fn visit_literal(&mut self, input: &LiteralExpression, additional: &Self::AdditionalInput) -> (output:
        Self::Output)
        requires
            old(self).wf(),
        ensures
            final(self).wf(),
            (*final(self), output) == old(self).literal_model(*input, *additional),
    ;

    /// Visits a struct literal. Its members were not visited.
    fn visit_struct_init(
        &mut self,
        input: &StructExpression,
        additional: &Self::AdditionalInput,
    ) -> (output: Self::Output)
        requires
            old(self).wf(),
        ensures
            final(self).wf(),
            (*final(self), output) == old(self).struct_init_model(*input, *additional),
    ;

    /// Visits a binary expression, after its operands gave `left` and
    /// `right`.
    fn visit_binary(
        &mut self,
        input: &BinaryExpression,
        additional: &Self::AdditionalInput,
        left: Self::Output,
        right: Self::Output,
    ) -> (output: Self::Output)
        requires
            old(self).wf(),
        ensures
            final(self).wf(),
            (*final(self), output) == old(self).binary_model(*input, *additional, left, right),
    ;

    /// Visits a unary expression, after its operand gave `receiver`.
    fn visit_unary(
        &mut self,
        input: &UnaryExpression,
        additional: &Self::AdditionalInput,
        receiver: Self::Output,
    ) -> (output: Self::Output)
        requires
            old(self).wf(),
        ensures
            final(self).wf(),
            (*final(self), output) == old(self).unary_model(*input, *additional, receiver),
    ;

    /// Visits a ternary expression, after its three parts were visited.
    fn visit_ternary(
        &mut self,
        input: &TernaryExpression,
        additional: &Self::AdditionalInput,
        condition: Self::Output,
        if_true: Self::Output,
        if_false: Self::Output,
    ) -> (output: Self::Output)
        requires
            old(self).wf(),
        ensures
            final(self).wf(),
            (*final(self), output) == old(self).ternary_model(
                *input,
                *additional,
                condition,
                if_true,
                if_false,
            ),
    ;

    /// Visits a call, after its arguments gave `arguments`. The callee is
    /// not visited.
    fn visit_call(
        &mut self,
        input: &CallExpression,
        additional: &Self::AdditionalInput,
        arguments: List<Self::Output>,
    ) -> (output: Self::Output)
        requires
            old(self).wf(),
        ensures
            final(self).wf(),
            (*final(self), output) == old(self).call_model(*input, *additional, arguments),
    ;

    /// Visits a tuple, after its elements gave `elements`.
    fn visit_tuple(
        &mut self,
        input: &TupleExpression,
        additional: &Self::AdditionalInput,
        elements: List<Self::Output>,
    ) -> (output: Self::Output)
        requires
            old(self).wf(),
        ensures
            final(self).wf(),
            (*final(self), output) == old(self).tuple_model(*input, *additional, elements),
    ;

    /// Visits an access, after the expressions inside it gave `inner`: the
    /// arguments of an associated function, visited with `no_input`, or
    /// the one expression that a member or a tuple element is taken from.
    fn visit_access(
        &mut self,
        input: &AccessExpression,
        additional: &Self::AdditionalInput,
        inner: List<Self::Output>,
    ) -> (output: Self::Output)
        requires
            old(self).wf(),
        ensures
            final(self).wf(),
            (*final(self), output) == old(self).access_model(*input, *additional, inner),
    ;
}

/// What `visit_expression` does: the state of the pass after the visit of
/// `input` with the context `additional`, and what the visit gives.
pub open spec fn visited_expression<V: ExpressionVisitor>(
    visitor: V,
    input: Expression,
    additional: V::AdditionalInput,
) -> (V, V::Output)
    decreases input,
{
    match input {
        Expression::Identifier(identifier) => visitor.identifier_model(identifier, additional),
        Expression::Literal(literal) => visitor.literal_model(literal, additional),
        Expression::Struct(literal) => visitor.struct_init_model(literal, additional),
        Expression::Binary(binary) => {
            let (visitor, left) = visited_expression(visitor, *binary.left, additional);
            let (visitor, right) = visited_expression(visitor, *binary.right, additional);
            visitor.binary_model(binary, additional, left, right)
        },
        Expression::Unary(unary) => {
            let (visitor, receiver) = visited_expression(visitor, *unary.receiver, additional);
            visitor.unary_model(unary, additional, receiver)
        },
        Expression::Ternary(ternary) => {
            let (visitor, condition) = visited_expression(visitor, *ternary.condition, additional);
            let (visitor, if_true) = visited_expression(visitor, *ternary.if_true, additional);
            let (visitor, if_false) = visited_expression(visitor, *ternary.if_false, additional);
            visitor.ternary_model(ternary, additional, condition, if_true, if_false)
        },
        Expression::Call(call) => {
            let (visitor, arguments) = visited_expressions(visitor, call.arguments, additional);
            visitor.call_model(call, additional, arguments)
        },
        Expression::Tuple(tuple) => {
            let (visitor, elements) = visited_expressions(visitor, tuple.elements, additional);
            visitor.tuple_model(tuple, additional, elements)
        },
        Expression::Access(AccessExpression::AssociatedFunction(function)) => {
            let (visitor, inner) = visited_expressions(visitor, function.args, V::no_input());
            visitor.access_model(AccessExpression::AssociatedFunction(function), additional, inner)
        },
        Expression::Access(AccessExpression::Member(member)) => {
            let (visitor, inner) = visited_expression(visitor, *member.inner, additional);
            visitor.access_model(
                AccessExpression::Member(member),
                additional,
                List::Cons(Box::new(inner), Box::new(List::Nil)),
            )
        },
        Expression::Access(AccessExpression::Tuple(access)) => {
            let (visitor, inner) = visited_expression(visitor, *access.tuple, additional);
            visitor.access_model(
                AccessExpression::Tuple(access),
                additional,
                List::Cons(Box::new(inner), Box::new(List::Nil)),
            )
        },
        Expression::Access(AccessExpression::AssociatedConstant(constant)) => visitor.access_model(
            AccessExpression::AssociatedConstant(constant),
            additional,
            List::Nil,
        ),
        Expression::Error(_) => (visitor, V::no_output()),
    }
}

/// What `visit_expressions` does: the expressions are visited one after
/// the other with the same context.
pub open spec fn visited_expressions<V: ExpressionVisitor>(
    visitor: V,
    inputs: List<Expression>,
    additional: V::AdditionalInput,
) -> (V, List<V::Output>)
    decreases inputs,
{
    match inputs {
        List::Nil => (visitor, List::Nil),
        List::Cons(head, tail) => {
            let (visitor, first) = visited_expression(visitor, *head, additional);
            let (visitor, rest) = visited_expressions(visitor, *tail, additional);
            (visitor, List::Cons(Box::new(first), Box::new(rest)))
        },
    }
}

/// Visits an expression: its children first, from left to right, with the
/// context of the expression itself, and then the node by the method of
/// the pass for its kind.
pub fn visit_expression<V: ExpressionVisitor>(
    visitor: &mut V,
    input: &Expression,
    additional: &V::AdditionalInput,
) -> (output: V::Output)
    requires
        old(visitor).wf(),
        input.error_free(),
    ensures
        final(visitor).wf(),
        (*final(visitor), output) == visited_expression(*old(visitor), *input, *additional),
    decreases input,
{
    match input {
        Expression::Identifier(identifier) => visitor.visit_identifier(identifier, additional),
        Expression::Literal(literal) => visitor.visit_literal(literal, additional),
        Expression::Struct(literal) => visitor.visit_struct_init(literal, additional),
        Expression::Binary(binary) => {
            let left = visit_expression(visitor, &binary.left, additional);
            let right = visit_expression(visitor, &binary.right, additional);
            visitor.visit_binary(binary, additional, left, right)
        },
        Expression::Unary(unary) => {
            let receiver = visit_expression(visitor, &unary.receiver, additional);
            visitor.visit_unary(unary, additional, receiver)
        },
        Expression::Ternary(ternary) => {
            let condition = visit_expression(visitor, &ternary.condition, additional);
            let if_true = visit_expression(visitor, &ternary.if_true, additional);
            let if_false = visit_expression(visitor, &ternary.if_false, additional);
            visitor.visit_ternary(ternary, additional, condition, if_true, if_false)
        },
        Expression::Call(call) => {
            let arguments = visit_expressions(visitor, &call.arguments, additional);
            visitor.visit_call(call, additional, arguments)
        },
        Expression::Tuple(tuple) => {
            let elements = visit_expressions(visitor, &tuple.elements, additional);
            visitor.visit_tuple(tuple, additional, elements)
        },
        Expression::Access(access) => {
            let inner = match access {
                AccessExpression::AssociatedFunction(function) => {
                    let none = visitor.default_input();
                    visit_expressions(visitor, &function.args, &none)
                },
                AccessExpression::Member(member) => {
                    let inner = visit_expression(visitor, &member.inner, additional);
                    List::Cons(Box::new(inner), Box::new(List::Nil))
                },
                AccessExpression::Tuple(tuple_access) => {
                    let inner = visit_expression(visitor, &tuple_access.tuple, additional);
                    List::Cons(Box::new(inner), Box::new(List::Nil))
                },
                AccessExpression::AssociatedConstant(_) => List::Nil,
            };
            visitor.visit_access(access, additional, inner)
        },
        Expression::Error(_) => unreached(),
    }
}

/// Visits the expressions of a list one after the other with the same
/// context.
pub fn visit_expressions<V: ExpressionVisitor>(
    visitor: &mut V,
    inputs: &List<Expression>,
    additional: &V::AdditionalInput,
) -> (outputs: List<V::Output>)
    requires
        old(visitor).wf(),
        all_error_free(*inputs),
    ensures
        final(visitor).wf(),
        (*final(visitor), outputs) == visited_expressions(*old(visitor), *inputs, *additional),
    decreases inputs,
{
    match inputs {
        List::Nil => List::Nil,
        List::Cons(head, tail) => {
            let first = visit_expression(visitor, head, additional);
            let rest = visit_expressions(visitor, tail, additional);
            List::Cons(Box::new(first), Box::new(rest))
        },
    }
}

/// A pass that reads statements.
///
/// The method for a kind of statement is called before anything inside the
/// statement is visited. It returns the context for the expressions of the
/// statement, or `None` to leave them unvisited.
pub trait StatementVisitor: ExpressionVisitor {
    /// What `visit_return` does.
    open spec fn return_model(&self, input: ReturnStatement) -> (
        Self,
        Option<Self::AdditionalInput>,
    ) {
        (*self, Some(Self::no_input()))
    }

    /// What `visit_definition` does.
    open spec fn definition_model(&self, input: DefinitionStatement) -> (
        Self,
        Option<Self::AdditionalInput>,
    ) {
        (*self, Some(Self::no_input()))
    }

    /// What `finish_definition` does.
    open spec fn definition_finished(&self, input: DefinitionStatement) -> Self {
        *self
    }

    /// What `visit_assign` does.
    open spec fn assign_model(&self, input: AssignStatement) -> (
        Self,
        Option<Self::AdditionalInput>,
    ) {
        (*self, Some(Self::no_input()))
    }

    /// What `visit_conditional` does.
    open spec fn conditional_model(&self, input: ConditionalStatement) -> (
        Self,
        Option<Self::AdditionalInput>,
    ) {
        (*self, Some(Self::no_input()))
    }

    /// What `visit_iteration` does.
    open spec fn iteration_model(&self, input: IterationStatement) -> (
        Self,
        Option<Self::AdditionalInput>,
    ) {
        (*self, Some(Self::no_input()))
    }

    /// What `visit_console` does.
    open spec fn console_model(&self, input: ConsoleStatement) -> (
        Self,
        Option<Self::AdditionalInput>,
    ) {
        (*self, Some(Self::no_input()))
    }

    /// What `visit_decrement` does.
    open spec fn decrement_model(&self, input: DecrementStatement) -> (
        Self,
        Option<Self::AdditionalInput>,
    ) {
        (*self, Some(Self::no_input()))
    }

    /// What `visit_increment` does.
    open spec fn increment_model(&self, input: IncrementStatement) -> (
        Self,
        Option<Self::AdditionalInput>,
    ) {
        (*self, Some(Self::no_input()))
    }

    /// What `visit_finalize` does.
    open spec fn finalize_model(&self, input: FinalizeStatement) -> (
        Self,
        Option<Self::AdditionalInput>,
    ) {
        (*self, Some(Self::no_input()))
    }

    /// What `visit_block` does.
    open spec fn block_model(&self, input: Block) -> Self {
        *self
    }

    /// What `finish_block` does.
    open spec fn block_finished(&self, input: Block) -> Self {
        *self
    }

    /// Enters a return statement.
    fn visit_return(&mut self, input: &ReturnStatement) -> (additional: Option<
        Self::AdditionalInput,
    >)
        requires
            old(self).wf(),
        ensures
            final(self).wf(),
            (*final(self), additional) == old(self).return_model(*input),
    ;

    /// Enters a definition.
    fn visit_definition(&mut self, input: &DefinitionStatement) -> (additional: Option<
        Self::AdditionalInput,
    >)
        requires
            old(self).wf(),
        ensures
            final(self).wf(),
            (*final(self), additional) == old(self).definition_model(*input),
    ;

    /// Leaves a definition, after its initial value was visited or left
    /// unvisited.
    fn finish_definition(&mut self, input: &DefinitionStatement)
        requires
            old(self).wf(),
        ensures
            final(self).wf(),
            *final(self) == old(self).definition_finished(*input),
    ;

    /// Enters an assignment.
    fn visit_assign(&mut self, input: &AssignStatement) -> (additional: Option<
        Self::AdditionalInput,
    >)
        requires
            old(self).wf(),
        ensures
            final(self).wf(),
            (*final(self), additional) == old(self).assign_model(*input),
    ;

    /// Enters a conditional. The context is for the condition.
    fn visit_conditional(&mut self, input: &ConditionalStatement) -> (additional: Option<
        Self::AdditionalInput,
    >)
        requires
            old(self).wf(),
        ensures
            final(self).wf(),
            (*final(self), additional) == old(self).conditional_model(*input),
    ;

    /// Enters a loop. The context is for both bounds.
    fn visit_iteration(&mut self, input: &IterationStatement) -> (additional: Option<
        Self::AdditionalInput,
    >)
        requires
            old(self).wf(),
        ensures
            final(self).wf(),
            (*final(self), additional) == old(self).iteration_model(*input),
    ;

    /// Enters a console statement.
    fn visit_console(&mut self, input: &ConsoleStatement) -> (additional: Option<
        Self::AdditionalInput,
    >)
        requires
            old(self).wf(),
        ensures
            final(self).wf(),
            (*final(self), additional) == old(self).console_model(*input),
    ;

    /// Enters a decrement.
    fn visit_decrement(&mut self, input: &DecrementStatement) -> (additional: Option<
        Self::AdditionalInput,
    >)
        requires
            old(self).wf(),
        ensures
            final(self).wf(),
            (*final(self), additional) == old(self).decrement_model(*input),
    ;

    /// Enters an increment.
    fn visit_increment(&mut self, input: &IncrementStatement) -> (additional: Option<
        Self::AdditionalInput,
    >)
        requires
            old(self).wf(),
        ensures
            final(self).wf(),
            (*final(self), additional) == old(self).increment_model(*input),
    ;

    /// Enters a finalize statement.
    fn visit_finalize(&mut self, input: &FinalizeStatement) -> (additional: Option<
        Self::AdditionalInput,
    >)
        requires
            old(self).wf(),
        ensures
            final(self).wf(),
            (*final(self), additional) == old(self).finalize_model(*input),
    ;

    /// Enters a block, before its first statement is visited.
    fn visit_block(&mut self, input: &Block)
        requires
            old(self).wf(),
        ensures
            final(self).wf(),
            *final(self) == old(self).block_model(*input),
    ;

    /// Leaves a block, after its last statement was visited.
    fn finish_block(&mut self, input: &Block)
        requires
            old(self).wf(),
        ensures
            final(self).wf(),
            *final(self) == old(self).block_finished(*input),
    ;
}

/// The state of the pass after the visit of `input` with the context
/// `additional`, if there is one; the state as it is if there is none.
pub open spec fn visited_optional<V: ExpressionVisitor>(
    visitor: V,
    input: Expression,
    additional: Option<V::AdditionalInput>,
) -> V {
    match additional {
        Some(additional) => visited_expression(visitor, input, additional).0,
        None => visitor,
    }
}

/// The state of the pass after the visit of all of `inputs` with the
/// context `additional`, if there is one.
pub open spec fn visited_all_optional<V: ExpressionVisitor>(
    visitor: V,
    inputs: List<Expression>,
    additional: Option<V::AdditionalInput>,
) -> V {
    match additional {
        Some(additional) => visited_expressions(visitor, inputs, additional).0,
        None => visitor,
    }
}

/// What the visit of the expressions of a console function does.
pub open spec fn visited_console_function<V: ExpressionVisitor>(
    visitor: V,
    input: ConsoleFunction,
    additional: Option<V::AdditionalInput>,
) -> V {
    match input {
        ConsoleFunction::Assert(expression) => visited_optional(visitor, expression, additional),
        ConsoleFunction::AssertEq(left, right) => visited_optional(
            visited_optional(visitor, left, additional),
            right,
            additional,
        ),
        ConsoleFunction::AssertNeq(left, right) => visited_optional(
            visited_optional(visitor, left, additional),
            right,
            additional,
        ),
        ConsoleFunction::Error(args) => visited_all_optional(visitor, args.parameters, additional),
        ConsoleFunction::Log(args) => visited_all_optional(visitor, args.parameters, additional),
    }
}

/// What the visit of the parts of a decrement or an increment does: the
/// amount, the index, and then the name of the mapping as an identifier.
pub open spec fn visited_update<V: ExpressionVisitor>(
    visitor: V,
    mapping: Identifier,
    index: Expression,
    amount: Expression,
    additional: Option<V::AdditionalInput>,
) -> V {
    match additional {
        Some(additional) => {
            let (visitor, _) = visited_expression(visitor, amount, additional);
            let (visitor, _) = visited_expression(visitor, index, additional);
            visitor.identifier_model(mapping, additional).0
        },
        None => visitor,
    }
}

/// What `visit_statement` does: the state of the pass after the visit.
pub open spec fn visited_statement<V: StatementVisitor>(visitor: V, input: Statement) -> V
    decreases input,
{
    match input {
        Statement::Return(statement) => {
            let (visitor, additional) = visitor.return_model(statement);
            visited_optional(visitor, statement.expression, additional)
        },
        Statement::Definition(definition) => {
            let (visitor, additional) = visitor.definition_model(definition);
            visited_optional(visitor, definition.value, additional).definition_finished(definition)
        },
        Statement::Assign(assign) => {
            let (visitor, additional) = visitor.assign_model(*assign);
            visited_optional(visitor, assign.value, additional)
        },
        Statement::Conditional(conditional) => {
            let (visitor, additional) = visitor.conditional_model(conditional);
            let visitor = visited_optional(visitor, conditional.condition, additional);
            let visitor = visited_block(visitor, conditional.block);
            match conditional.next {
                Some(next) => visited_statement(visitor, *next),
                None => visitor,
            }
        },
        Statement::Iteration(iteration) => {
            let (visitor, additional) = visitor.iteration_model(*iteration);
            let visitor = visited_optional(visitor, iteration.start, additional);
            let visitor = visited_optional(visitor, iteration.stop, additional);
            visited_block(visitor, iteration.block)
        },
        Statement::Console(console) => {
            let (visitor, additional) = visitor.console_model(console);
            visited_console_function(visitor, console.function, additional)
        },
        Statement::Decrement(decrement) => {
            let (visitor, additional) = visitor.decrement_model(decrement);
            visited_update(visitor, decrement.mapping, decrement.index, decrement.amount, additional)
        },
        Statement::Increment(increment) => {
            let (visitor, additional) = visitor.increment_model(increment);
            visited_update(visitor, increment.mapping, increment.index, increment.amount, additional)
        },
        Statement::Finalize(finalize) => {
            let (visitor, additional) = visitor.finalize_model(finalize);
            visited_all_optional(visitor, finalize.arguments, additional)
        },
        Statement::Block(block) => visited_block(visitor, block),
    }
}

/// What `visit_block` does: the pass enters the block, the statements are
/// visited in their order, and the pass leaves the block.
pub open spec fn visited_block<V: StatementVisitor>(visitor: V, input: Block) -> V
    decreases input,
{
    visited_statements(visitor.block_model(input), input.statements).block_finished(input)
}

/// What `visit_statements` does.
pub open spec fn visited_statements<V: StatementVisitor>(visitor: V, inputs: List<Statement>) -> V
    decreases inputs,
{
    match inputs {
        List::Nil => visitor,
        List::Cons(head, tail) => visited_statements(visited_statement(visitor, *head), *tail),
    }
}

/// Visits an expression if there is a context for it.
pub fn visit_optional<V: ExpressionVisitor>(
    visitor: &mut V,
    input: &Expression,
    additional: &Option<V::AdditionalInput>,
)
    requires
        old(visitor).wf(),
        input.error_free(),
    ensures
        final(visitor).wf(),
        *final(visitor) == visited_optional(*old(visitor), *input, *additional),
{
    match additional {
        Some(additional) => {
            let _ = visit_expression(visitor, input, additional);
        },
        None => {},
    }
}

/// Visits the expressions of a list if there is a context for them.
pub fn visit_all_optional<V: ExpressionVisitor>(
    visitor: &mut V,
    inputs: &List<Expression>,
    additional: &Option<V::AdditionalInput>,
)
    requires
        old(visitor).wf(),
        all_error_free(*inputs),
    ensures
        final(visitor).wf(),
        *final(visitor) == visited_all_optional(*old(visitor), *inputs, *additional),
{
    match additional {
        Some(additional) => {
            let _ = visit_expressions(visitor, inputs, additional);
        },
        None => {},
    }
}

/// Visits the amount and the index of a decrement or an increment, and
/// then the name of the mapping as an identifier, if there is a context
/// for them.
pub fn visit_update<V: ExpressionVisitor>(
    visitor: &mut V,
    mapping: &Identifier,
    index: &Expression,
    amount: &Expression,
    additional: &Option<V::AdditionalInput>,
)
    requires
        old(visitor).wf(),
        index.error_free(),
        amount.error_free(),
    ensures
        final(visitor).wf(),
        *final(visitor) == visited_update(*old(visitor), *mapping, *index, *amount, *additional),
{
    match additional {
        Some(additional) => {
            let _ = visit_expression(visitor, amount, additional);
            let _ = visit_expression(visitor, index, additional);
            let _ = visitor.visit_identifier(mapping, additional);
        },
        None => {},
    }
}

/// Visits a statement: the method of the pass for its kind first, then
/// the expressions of the statement with the context that the method
/// returned, and then the blocks and statements inside it.
pub fn visit_statement<V: StatementVisitor>(visitor: &mut V, input: &Statement)
    requires
        old(visitor).wf(),
        input.error_free(),
    ensures
        final(visitor).wf(),
        *final(visitor) == visited_statement(*old(visitor), *input),
    decreases input,
{
    match input {
        Statement::Return(statement) => {
            let additional = visitor.visit_return(statement);
            visit_optional(visitor, &statement.expression, &additional);
        },
        Statement::Definition(definition) => {
            let additional = visitor.visit_definition(definition);
            visit_optional(visitor, &definition.value, &additional);
            visitor.finish_definition(definition);
        },
        Statement::Assign(assign) => {
            let additional = visitor.visit_assign(assign);
            visit_optional(visitor, &assign.value, &additional);
        },
        Statement::Conditional(conditional) => {
            let additional = visitor.visit_conditional(conditional);
            visit_optional(visitor, &conditional.condition, &additional);
            visit_block(visitor, &conditional.block);
            match &conditional.next {
                Some(next) => visit_statement(visitor, next),
                None => {},
            }
        },
        Statement::Iteration(iteration) => {
            let additional = visitor.visit_iteration(iteration);
            visit_optional(visitor, &iteration.start, &additional);
            visit_optional(visitor, &iteration.stop, &additional);
            visit_block(visitor, &iteration.block);
        },
        Statement::Console(console) => {
            let additional = visitor.visit_console(console);
            match &console.function {
                ConsoleFunction::Assert(expression) => {
                    visit_optional(visitor, expression, &additional);
                },
                ConsoleFunction::AssertEq(left, right) => {
                    visit_optional(visitor, left, &additional);
                    visit_optional(visitor, right, &additional);
                },
                ConsoleFunction::AssertNeq(left, right) => {
                    visit_optional(visitor, left, &additional);
                    visit_optional(visitor, right, &additional);
                },
                ConsoleFunction::Error(args) => {
                    visit_all_optional(visitor, &args.parameters, &additional);
                },
                ConsoleFunction::Log(args) => {
                    visit_all_optional(visitor, &args.parameters, &additional);
                },
            }
        },
        Statement::Decrement(decrement) => {
            let additional = visitor.visit_decrement(decrement);
            visit_update(
                visitor,
                &decrement.mapping,
                &decrement.index,
                &decrement.amount,
                &additional,
            );
        },
        Statement::Increment(increment) => {
            let additional = visitor.visit_increment(increment);
            visit_update(
                visitor,
                &increment.mapping,
                &increment.index,
                &increment.amount,
                &additional,
            );
        },
        Statement::Finalize(finalize) => {
            let additional = visitor.visit_finalize(finalize);
            visit_all_optional(visitor, &finalize.arguments, &additional);
        },
        Statement::Block(block) => visit_block(visitor, block),
    }
}

/// Visits a block: the pass enters it, the statements are visited in
/// their order, and the pass leaves it.
pub fn visit_block<V: StatementVisitor>(visitor: &mut V, input: &Block)
    requires
        old(visitor).wf(),
        input.error_free(),
    ensures
        final(visitor).wf(),
        *final(visitor) == visited_block(*old(visitor), *input),
    decreases input,
{
    visitor.visit_block(input);
    visit_statements(visitor, &input.statements);
    visitor.finish_block(input);
}

/// Visits the statements of a list in their order.
pub fn visit_statements<V: StatementVisitor>(visitor: &mut V, inputs: &List<Statement>)
    requires
        old(visitor).wf(),
        all_statements_error_free(*inputs),
    ensures
        final(visitor).wf(),
        *final(visitor) == visited_statements(*old(visitor), *inputs),
    decreases inputs,
{
    match inputs {
        List::Nil => {},
        List::Cons(head, tail) => {
            visit_statement(visitor, head);
            visit_statements(visitor, tail);
        },
    }
}

/// A pass that reads programs.
pub trait ProgramVisitor: StatementVisitor {
    /// What `visit_struct` does.
    open spec fn struct_model(&self, input: Struct) -> Self {
        *self
    }

    /// What `visit_mapping` does.
    open spec fn mapping_model(&self, input: Mapping) -> Self {
        *self
    }

    /// What `visit_function` does.
    open spec fn function_model(&self, input: Function) -> Self {
        *self
    }

    /// Visits the declaration of a struct.
    fn visit_struct(&mut self, input: &Struct)
        requires
            old(self).wf(),
        ensures
            final(self).wf(),
            *final(self) == old(self).struct_model(*input),
    ;

    /// Visits the declaration of a mapping.
    fn visit_mapping(&mut self, input: &Mapping)
        requires
            old(self).wf(),
        ensures
            final(self).wf(),
            *final(self) == old(self).mapping_model(*input),
    ;

    /// Enters a function, before its body is visited.
    fn visit_function(&mut self, input: &Function)
        requires
            old(self).wf(),
        ensures
            final(self).wf(),
            *final(self) == old(self).function_model(*input),
    ;
}

/// What `visit_function` does: the pass enters the function, the body is
/// visited, and then the finalize block if there is one.
pub open spec fn visited_function<V: ProgramVisitor>(visitor: V, input: Function) -> V {
    let visitor = visited_block(visitor.function_model(input), input.block);
    match input.finalize {
        Some(finalize) => visited_block(visitor, finalize.block),
        None => visitor,
    }
}

/// What `visit_structs` does.
pub open spec fn visited_structs<V: ProgramVisitor>(visitor: V, inputs: List<Struct>) -> V
    decreases inputs,
{
    match inputs {
        List::Nil => visitor,
        List::Cons(head, tail) => visited_structs(visitor.struct_model(*head), *tail),
    }
}

/// What `visit_mappings` does.
pub open spec fn visited_mappings<V: ProgramVisitor>(visitor: V, inputs: List<Mapping>) -> V
    decreases inputs,
{
    match inputs {
        List::Nil => visitor,
        List::Cons(head, tail) => visited_mappings(visitor.mapping_model(*head), *tail),
    }
}

/// What `visit_functions` does.
pub open spec fn visited_functions<V: ProgramVisitor>(visitor: V, inputs: List<Function>) -> V
    decreases inputs,
{
    match inputs {
        List::Nil => visitor,
        List::Cons(head, tail) => visited_functions(visited_function(visitor, *head), *tail),
    }
}

/// What `visit_program_scope` does: the structs are visited, then the
/// mappings, then the functions.
pub open spec fn visited_program_scope<V: ProgramVisitor>(visitor: V, input: ProgramScope) -> V {
    visited_functions(
        visited_mappings(visited_structs(visitor, input.structs), input.mappings),
        input.functions,
    )
}

/// What `visit_program_scopes` does.
pub open spec fn visited_program_scopes<V: ProgramVisitor>(
    visitor: V,
    inputs: List<ProgramScope>,
) -> V
    decreases inputs,
{
    match inputs {
        List::Nil => visitor,
        List::Cons(head, tail) => visited_program_scopes(
            visited_program_scope(visitor, *head),
            *tail,
        ),
    }
}

/// What `visit_program` does: the imported programs are visited first, in
/// the order of their import and each as a program of its own, and then
/// the scopes of the program.
pub open spec fn visited_program<V: ProgramVisitor>(visitor: V, input: Program) -> V
    decreases input,
{
    visited_program_scopes(visited_imports(visitor, input.imports), input.program_scopes)
}

/// What `visit_imports` does.
pub open spec fn visited_imports<V: ProgramVisitor>(visitor: V, inputs: Imports) -> V
    decreases inputs,
{
    match inputs {
        Imports::Nil => visitor,
        Imports::Cons(head, tail) => visited_imports(
            visited_program(visitor, head.program),
            *tail,
        ),
    }
}

/// Visits a function: the method of the pass first, then the body, then
/// the finalize block if there is one.
pub fn visit_function<V: ProgramVisitor>(visitor: &mut V, input: &Function)
    requires
        old(visitor).wf(),
        input.error_free(),
    ensures
        final(visitor).wf(),
        *final(visitor) == visited_function(*old(visitor), *input),
{
    visitor.visit_function(input);
    visit_block(visitor, &input.block);
    match &input.finalize {
        Some(finalize) => visit_block(visitor, &finalize.block),
        None => {},
    }
}

/// Visits the struct declarations of a list in their order.
pub fn visit_structs<V: ProgramVisitor>(visitor: &mut V, inputs: &List<Struct>)
    requires
        old(visitor).wf(),
    ensures
        final(visitor).wf(),
        *final(visitor) == visited_structs(*old(visitor), *inputs),
    decreases inputs,
{
    match inputs {
        List::Nil => {},
        List::Cons(head, tail) => {
            visitor.visit_struct(head);
            visit_structs(visitor, tail);
        },
    }
}

/// Visits the mapping declarations of a list in their order.
pub fn visit_mappings<V: ProgramVisitor>(visitor: &mut V, inputs: &List<Mapping>)
    requires
        old(visitor).wf(),
    ensures
        final(visitor).wf(),
        *final(visitor) == visited_mappings(*old(visitor), *inputs),
    decreases inputs,
{
    match inputs {
        List::Nil => {},
        List::Cons(head, tail) => {
            visitor.visit_mapping(head);
            visit_mappings(visitor, tail);
        },
    }
}

/// Visits the functions of a list in their order.
pub fn visit_functions<V: ProgramVisitor>(visitor: &mut V, inputs: &List<Function>)
    requires
        old(visitor).wf(),
        all_functions_error_free(*inputs),
    ensures
        final(visitor).wf(),
        *final(visitor) == visited_functions(*old(visitor), *inputs),
    decreases inputs,
{
    match inputs {
        List::Nil => {},
        List::Cons(head, tail) => {
            visit_function(visitor, head);
            visit_functions(visitor, tail);
        },
    }
}

/// Visits a scope of a program: its structs, then its mappings, then its
/// functions.
pub fn visit_program_scope<V: ProgramVisitor>(visitor: &mut V, input: &ProgramScope)
    requires
        old(visitor).wf(),
        all_functions_error_free(input.functions),
    ensures
        final(visitor).wf(),
        *final(visitor) == visited_program_scope(*old(visitor), *input),
{
    visit_structs(visitor, &input.structs);
    visit_mappings(visitor, &input.mappings);
    visit_functions(visitor, &input.functions);
}

/// Visits the scopes of a list in their order.
pub fn visit_program_scopes<V: ProgramVisitor>(visitor: &mut V, inputs: &List<ProgramScope>)
    requires
        old(visitor).wf(),
        all_scopes_error_free(*inputs),
    ensures
        final(visitor).wf(),
        *final(visitor) == visited_program_scopes(*old(visitor), *inputs),
    decreases inputs,
{
    match inputs {
        List::Nil => {},
        List::Cons(head, tail) => {
            visit_program_scope(visitor, head);
            visit_program_scopes(visitor, tail);
        },
    }
}

/// Visits a program: the programs it imports first, and then its scopes.
pub fn visit_program<V: ProgramVisitor>(visitor: &mut V, input: &Program)
    requires
        old(visitor).wf(),
        input.error_free(),
    ensures
        final(visitor).wf(),
        *final(visitor) == visited_program(*old(visitor), *input),
    decreases input,
{
    visit_imports(visitor, &input.imports);
    visit_program_scopes(visitor, &input.program_scopes);
}

/// Visits an imported program as a program of its own.
pub fn visit_import<V: ProgramVisitor>(visitor: &mut V, input: &Import)
    requires
        old(visitor).wf(),
        input.program.error_free(),
    ensures
        final(visitor).wf(),
        *final(visitor) == visited_program(*old(visitor), input.program),
    decreases input,
{
    visit_program(visitor, &input.program);
}

/// Visits the imported programs of a list in the order of their import.
pub fn visit_imports<V: ProgramVisitor>(visitor: &mut V, inputs: &Imports)
    requires
        old(visitor).wf(),
        all_imports_error_free(*inputs),
    ensures
        final(visitor).wf(),
        *final(visitor) == visited_imports(*old(visitor), *inputs),
    decreases inputs,
{
    match inputs {
        Imports::Nil => {},
        Imports::Cons(head, tail) => {
            visit_import(visitor, head);
            visit_imports(visitor, tail);
        },
    }
}

} // verus!
