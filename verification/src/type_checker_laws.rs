//! What holds of the statement type checker on every input.

use vstd::prelude::*;
use crate::diagnostics::{Diagnostic, DiagnosticKind};
use crate::expression::{AccessExpression, Expression, LiteralExpression};
use crate::list::List;
use crate::span::Symbol;
use crate::statement::{
    AssignStatement,
    Block,
    ConsoleFunction,
    IterationStatement,
    ReturnStatement,
    Statement,
};
use crate::symbol_table::{find, SymbolTable, VariableSymbol};
use crate::type_checker::{symbol_of_iteration, Director, TypeChecker};
use crate::types::Type;
use crate::visitor::{
    visited_all_optional,
    visited_block,
    visited_expression,
    visited_expressions,
    visited_optional,
    visited_statement,
    visited_statements,
    ExpressionVisitor,
    StatementVisitor,
};

verus! {

/// Whether `after` starts with all of `before`, in the same order.
pub open spec fn extends(after: Seq<Diagnostic>, before: Seq<Diagnostic>) -> bool {
    &&& before.len() <= after.len()
    &&& forall|i: int| 0 <= i < before.len() ==> after[i] == before[i]
}

/// What extends an extension of a sequence extends that sequence.
pub proof fn lemma_extends_transitive(
    first: Seq<Diagnostic>,
    second: Seq<Diagnostic>,
    third: Seq<Diagnostic>,
)
    requires
        extends(second, first),
        extends(third, second),
    ensures
        extends(third, first),
{
    assert forall|i: int| 0 <= i < first.len() implies third[i] == first[i] by {
        assert(second[i] == first[i]);
        assert(third[i] == second[i]);
    }
}

/// Whether a step from `before` to `after` did nothing but report: the
/// symbol table and what the director remembers are the same, and what
/// was reported before is still there, followed by what is new.
pub open spec fn only_reported(before: Director, after: Director) -> bool {
    &&& after.visitor.symbol_table == before.visitor.symbol_table
    &&& after.parent == before.parent
    &&& after.has_return == before.has_return
    &&& extends(after.visitor.handler@, before.visitor.handler@)
}

/// Whether a step from `before` to `after` left alone everything but the
/// innermost scope: the scopes around it and the declarations of the
/// program are the same, and what was reported before is still there,
/// followed by what is new.
pub open spec fn kept_outer_scopes(before: Director, after: Director) -> bool {
    &&& after.visitor.symbol_table.enclosing == before.visitor.symbol_table.enclosing
    &&& after.visitor.symbol_table.functions == before.visitor.symbol_table.functions
    &&& after.visitor.symbol_table.structs == before.visitor.symbol_table.structs
    &&& extends(after.visitor.handler@, before.visitor.handler@)
}

/// The visit of an expression does nothing but report.
pub proof fn law_expression_only_reports(
    director: Director,
    input: Expression,
    additional: Option<Type>,
)
    ensures
        only_reported(director, visited_expression(director, input, additional).0),
    decreases input,
{
    match input {
        Expression::Binary(binary) => {
            law_expression_only_reports(director, *binary.left, additional);
            let after_left = visited_expression(director, *binary.left, additional).0;
            law_expression_only_reports(after_left, *binary.right, additional);
        },
        Expression::Unary(unary) => {
            law_expression_only_reports(director, *unary.receiver, additional);
        },
        Expression::Ternary(ternary) => {
            law_expression_only_reports(director, *ternary.condition, additional);
            let first = visited_expression(director, *ternary.condition, additional).0;
            law_expression_only_reports(first, *ternary.if_true, additional);
            let second = visited_expression(first, *ternary.if_true, additional).0;
            law_expression_only_reports(second, *ternary.if_false, additional);
        },
        Expression::Call(call) => {
            law_expressions_only_report(director, call.arguments, additional);
        },
        Expression::Tuple(tuple) => {
            law_expressions_only_report(director, tuple.elements, additional);
        },
        Expression::Access(AccessExpression::AssociatedFunction(function)) => {
            law_expressions_only_report(director, function.args, None);
        },
        Expression::Access(AccessExpression::Member(member)) => {
            law_expression_only_reports(director, *member.inner, additional);
        },
        Expression::Access(AccessExpression::Tuple(access)) => {
            law_expression_only_reports(director, *access.tuple, additional);
        },
        _ => {},
    }
}

/// The visit of a list of expressions does nothing but report.
pub proof fn law_expressions_only_report(
    director: Director,
    inputs: List<Expression>,
    additional: Option<Type>,
)
    ensures
        only_reported(director, visited_expressions(director, inputs, additional).0),
    decreases inputs,
{
    match inputs {
        List::Nil => {},
        List::Cons(head, tail) => {
            law_expression_only_reports(director, *head, additional);
            let after_head = visited_expression(director, *head, additional).0;
            law_expressions_only_report(after_head, *tail, additional);
        },
    }
}

/// The visit of an expression that may be left out does nothing but
/// report.
pub proof fn law_optional_only_reports(
    director: Director,
    input: Expression,
    additional: Option<Option<Type>>,
)
    ensures
        only_reported(director, visited_optional(director, input, additional)),
{
    match additional {
        Some(additional) => law_expression_only_reports(director, input, additional),
        None => {},
    }
}

/// The visit of a list of expressions that may be left out does nothing
/// but report.
pub proof fn law_all_optional_only_report(
    director: Director,
    inputs: List<Expression>,
    additional: Option<Option<Type>>,
)
    ensures
        only_reported(director, visited_all_optional(director, inputs, additional)),
{
    match additional {
        Some(additional) => law_expressions_only_report(director, inputs, additional),
        None => {},
    }
}

/// The visit of a statement leaves the scopes around the innermost one as
/// they are, declares nothing for the program, and keeps what was
/// reported.
pub proof fn law_statement_keeps_outer_scopes(director: Director, input: Statement)
    ensures
        kept_outer_scopes(director, visited_statement(director, input)),
    decreases input,
{
    match input {
        Statement::Return(statement) => {
            let (entered, additional) = director.return_model(statement);
            law_optional_only_reports(entered, statement.expression, additional);
        },
        Statement::Definition(definition) => {
            let (entered, additional) = director.definition_model(definition);
            law_optional_only_reports(entered, definition.value, additional);
        },
        Statement::Assign(assign) => {
            let (entered, additional) = director.assign_model(*assign);
            match director.visitor.symbol_table.resolve(assign.place.name) {
                Some(variable) => {
                    let warned = director.visitor.emitting_optional(
                        TypeChecker::constant_assigned(assign.place.name, variable),
                    );
                    lemma_extends_transitive(
                        director.visitor.handler@,
                        warned.handler@,
                        entered.visitor.handler@,
                    );
                },
                None => {},
            }
            law_optional_only_reports(entered, assign.value, additional);
        },
        Statement::Conditional(conditional) => {
            let (entered, additional) = director.conditional_model(conditional);
            law_optional_only_reports(entered, conditional.condition, additional);
            let checked = visited_optional(entered, conditional.condition, additional);
            law_block_restores_scopes(checked, conditional.block);
            let after_block = visited_block(checked, conditional.block);
            match conditional.next {
                Some(next) => law_statement_keeps_outer_scopes(after_block, *next),
                None => {},
            }
        },
        Statement::Iteration(iteration) => {
            let (entered, additional) = director.iteration_model(*iteration);
            let declared = director.visitor.declaring(
                iteration.variable.name,
                symbol_of_iteration(*iteration),
            );
            lemma_extends_transitive(
                director.visitor.handler@,
                declared.handler@,
                entered.visitor.handler@,
            );
            law_optional_only_reports(entered, iteration.start, additional);
            let first = visited_optional(entered, iteration.start, additional);
            law_optional_only_reports(first, iteration.stop, additional);
            let second = visited_optional(first, iteration.stop, additional);
            law_block_restores_scopes(second, iteration.block);
        },
        Statement::Console(console) => {
            let (entered, additional) = director.console_model(console);
            match console.function {
                ConsoleFunction::Assert(expression) => {
                    law_optional_only_reports(entered, expression, additional);
                },
                ConsoleFunction::AssertEq(left, right) => {
                    law_optional_only_reports(entered, left, additional);
                    law_optional_only_reports(
                        visited_optional(entered, left, additional),
                        right,
                        additional,
                    );
                },
                ConsoleFunction::AssertNeq(left, right) => {
                    law_optional_only_reports(entered, left, additional);
                    law_optional_only_reports(
                        visited_optional(entered, left, additional),
                        right,
                        additional,
                    );
                },
                ConsoleFunction::Error(args) => {
                    law_all_optional_only_report(entered, args.parameters, additional);
                },
                ConsoleFunction::Log(args) => {
                    law_all_optional_only_report(entered, args.parameters, additional);
                },
            }
        },
        Statement::Decrement(decrement) => {
            let (entered, additional) = director.decrement_model(decrement);
            match additional {
                Some(additional) => {
                    law_expression_only_reports(entered, decrement.amount, additional);
                    let first = visited_expression(entered, decrement.amount, additional).0;
                    law_expression_only_reports(first, decrement.index, additional);
                },
                None => {},
            }
        },
        Statement::Increment(increment) => {
            let (entered, additional) = director.increment_model(increment);
            match additional {
                Some(additional) => {
                    law_expression_only_reports(entered, increment.amount, additional);
                    let first = visited_expression(entered, increment.amount, additional).0;
                    law_expression_only_reports(first, increment.index, additional);
                },
                None => {},
            }
        },
        Statement::Finalize(finalize) => {
            let (entered, additional) = director.finalize_model(finalize);
            law_all_optional_only_report(entered, finalize.arguments, additional);
        },
        Statement::Block(block) => {
            law_block_restores_scopes(director, block);
        },
    }
}

/// The visit of a list of statements leaves the scopes around the
/// innermost one as they are, and reports in the order of the statements:
/// what is reported for the first statement comes after what was reported
/// before, and before what is reported for the statements that follow.
pub proof fn law_statements_report_in_order(director: Director, inputs: List<Statement>)
    ensures
        kept_outer_scopes(director, visited_statements(director, inputs)),
        inputs matches List::Cons(head, _) ==> {
            &&& kept_outer_scopes(director, visited_statement(director, *head))
            &&& kept_outer_scopes(
                visited_statement(director, *head),
                visited_statements(director, inputs),
            )
        },
    decreases inputs,
{
    match inputs {
        List::Nil => {},
        List::Cons(head, tail) => {
            law_statement_keeps_outer_scopes(director, *head);
            law_statements_report_in_order(visited_statement(director, *head), *tail);
        },
    }
}

/// After the visit of a block the symbol table is what it was before: as
/// many scopes are open, and every name refers to what it referred to
/// before, so that nothing declared in the block can be reached from
/// outside. This holds whatever was reported inside the block, and what
/// was reported before is kept.
pub proof fn law_block_restores_scopes(director: Director, input: Block)
    ensures
        visited_block(director, input).visitor.symbol_table == director.visitor.symbol_table,
        visited_block(director, input).visitor.symbol_table.depth()
            == director.visitor.symbol_table.depth(),
        forall|name: Symbol|
            visited_block(director, input).visitor.symbol_table.resolve(name)
                == director.visitor.symbol_table.resolve(name),
        extends(visited_block(director, input).visitor.handler@, director.visitor.handler@),
    decreases input,
{
    let entered = director.block_model(input);
    law_statements_report_in_order(entered, input.statements);
}

/// Shadowing is legal: right after a scope was opened every name can be
/// declared, whatever the scopes around bind, and then refers to the new
/// declaration.
pub proof fn law_shadowing_is_legal(table: SymbolTable, name: Symbol, symbol: VariableSymbol)
    ensures
        table.pushed().redeclaration(name, symbol) is None,
        table.pushed().inserted(name, symbol).resolve(name) == Some(symbol),
        table.pushed().inserted(name, symbol).popped() == table,
{
}

/// Redeclaration is not: once a name is declared in the innermost scope, a
/// second declaration of it in that scope is reported and changes
/// nothing.
pub proof fn law_redeclaration_is_reported(
    table: SymbolTable,
    name: Symbol,
    first: VariableSymbol,
    second: VariableSymbol,
)
    ensures
        table.inserted(name, first).redeclaration(name, second) is Some,
        table.inserted(name, first).inserted(name, second) == table.inserted(name, first),
{
}

/// A literal of another type than the expected one is reported at its own
/// place, and is still found to have the type of its kind.
pub proof fn law_literal_mismatch_is_reported(
    director: Director,
    literal: LiteralExpression,
    expected: Type,
)
    requires
        literal.type_of() != expected,
    ensures
        visited_expression(director, Expression::Literal(literal), Some(expected)) == (
            director.with_visitor(
                director.visitor.emitting(
                    Diagnostic {
                        kind: DiagnosticKind::TypeMismatch { expected, found: literal.type_of() },
                        span: literal.span_of(),
                    },
                ),
            ),
            Some(literal.type_of()),
        ),
{
}

/// An assignment to a constant is reported, at the place of the
/// declaration of the constant and after all that was reported before, and
/// the assigned expression is still checked against the type of the
/// constant.
pub proof fn law_constant_assignment_is_rejected(
    director: Director,
    input: AssignStatement,
    variable: VariableSymbol,
)
    requires
        director.visitor.symbol_table.resolve(input.place.name) == Some(variable),
        variable.declaration is Const,
    ensures
        ({
            let (entered, additional) = director.assign_model(input);
            let rejected = director.visitor.handler@.push(
                Diagnostic {
                    kind: DiagnosticKind::CannotAssignToConstVariable { name: input.place.name },
                    span: variable.span,
                },
            );
            &&& additional == Some(Some(variable.type_))
            &&& extends(entered.visitor.handler@, rejected)
            &&& visited_statement(director, Statement::Assign(Box::new(input)))
                == visited_expression(entered, input.value, Some(variable.type_)).0
            &&& extends(
                visited_statement(director, Statement::Assign(Box::new(input))).visitor.handler@,
                rejected,
            )
        }),
{
    let (entered, additional) = director.assign_model(input);
    let rejected = director.visitor.emitting_optional(
        TypeChecker::constant_assigned(input.place.name, variable),
    );
    law_expression_only_reports(entered, input.value, Some(variable.type_));
    lemma_extends_transitive(
        rejected.handler@,
        entered.visitor.handler@,
        visited_expression(entered, input.value, Some(variable.type_)).0.visitor.handler@,
    );
}

/// A return statement is noted whatever the returned expression is, and
/// the returned expression is checked against the declared result type of
/// the enclosing function.
pub proof fn law_return_is_noted_and_checked(director: Director, input: ReturnStatement)
    ensures
        ({
            let (entered, additional) = director.return_model(input);
            let after = visited_statement(director, Statement::Return(input));
            &&& additional == Some(director.return_type())
            &&& after == visited_expression(entered, input.expression, director.return_type()).0
            &&& after.has_return
            &&& after.parent == director.parent
        }),
{
    let (entered, additional) = director.return_model(input);
    law_expression_only_reports(entered, input.expression, director.return_type());
}

/// Both bounds of a loop are checked against the type of the loop
/// variable, the start before the stop, and the body is visited with the
/// loop variable bound as a constant of that type, unless the scope of the
/// loop statement binds the name already.
pub proof fn law_iteration_binds_and_checks(director: Director, input: IterationStatement)
    ensures
        ({
            let (entered, additional) = director.iteration_model(input);
            let after_start = visited_expression(entered, input.start, Some(input.type_)).0;
            let after_stop = visited_expression(after_start, input.stop, Some(input.type_)).0;
            &&& additional == Some(Some(input.type_))
            &&& visited_statement(director, Statement::Iteration(Box::new(input)))
                == visited_block(after_stop, input.block)
            &&& after_stop.visitor.symbol_table == entered.visitor.symbol_table
            &&& find(director.visitor.symbol_table.innermost, input.variable.name) is None
                ==> after_stop.visitor.symbol_table.resolve(input.variable.name) == Some(
                symbol_of_iteration(input),
            )
        }),
{
    let (entered, additional) = director.iteration_model(input);
    law_expression_only_reports(entered, input.start, Some(input.type_));
    let after_start = visited_expression(entered, input.start, Some(input.type_)).0;
    law_expression_only_reports(after_start, input.stop, Some(input.type_));
}

} // verus!
