//! What holds of the flattening pass on every input.

use vstd::prelude::*;
use crate::diagnostics::Diagnostic;
use crate::expression::{
    BinaryExpression,
    BinaryOperation,
    Expression,
    LiteralExpression,
    UnaryExpression,
};
use crate::flattening::{evaluated, evaluated_unary, literal_of, Flattener};
use crate::reconstructor::{reconstructed_expression, ExpressionReconstructor};
use crate::span::Span;
use crate::types::{IntegerType, Numeral};
use crate::value::{exact, Arithmetic, EvalError, EvalErrorKind, Value};

verus! {

/// The arithmetic operation that a checked operator stands for.
pub open spec fn checked_arithmetic(op: BinaryOperation) -> Option<Arithmetic> {
    match op {
        BinaryOperation::Add => Some(Arithmetic::Add),
        BinaryOperation::Sub => Some(Arithmetic::Sub),
        BinaryOperation::Mul => Some(Arithmetic::Mul),
        BinaryOperation::Div => Some(Arithmetic::Div),
        BinaryOperation::Pow => Some(Arithmetic::Pow),
        _ => None,
    }
}

/// The arithmetic operation that a wrapped operator stands for.
pub open spec fn wrapped_arithmetic(op: BinaryOperation) -> Option<Arithmetic> {
    match op {
        BinaryOperation::AddWrapped => Some(Arithmetic::Add),
        BinaryOperation::SubWrapped => Some(Arithmetic::Sub),
        BinaryOperation::MulWrapped => Some(Arithmetic::Mul),
        BinaryOperation::DivWrapped => Some(Arithmetic::Div),
        BinaryOperation::PowWrapped => Some(Arithmetic::Pow),
        _ => None,
    }
}

/// The binary expression `a op b` of two integer literals of one type.
pub open spec fn of_integer_literals(
    op: BinaryOperation,
    integer_type: IntegerType,
    a: Numeral,
    b: Numeral,
    left_span: Span,
    right_span: Span,
    span: Span,
) -> BinaryExpression {
    BinaryExpression {
        left: Box::new(
            Expression::Literal(LiteralExpression::Integer(integer_type, a, left_span)),
        ),
        right: Box::new(
            Expression::Literal(LiteralExpression::Integer(integer_type, b, right_span)),
        ),
        op,
        span,
    }
}

/// The value of type `integer_type` that holds `x` is an integer of that
/// type, holds `x`, is of a foldable kind, and is spelled by the numeral
/// of `x`.
pub proof fn lemma_integer_value(integer_type: IntegerType, x: int, span: Span)
    requires
        integer_type.in_range(x),
    ensures
        Value::integer(integer_type, x, span).integer_type() == Some(integer_type),
        Value::integer(integer_type, x, span).as_int() == x,
        Value::integer(integer_type, x, span).foldable(),
        literal_of(Value::integer(integer_type, x, span)) == LiteralExpression::Integer(
            integer_type,
            Numeral::of_int(x),
            span,
        ),
{
    match integer_type {
        IntegerType::I8 => {},
        IntegerType::I16 => {},
        IntegerType::I32 => {},
        IntegerType::I64 => {},
        IntegerType::I128 => {},
        IntegerType::U8 => {},
        IntegerType::U16 => {},
        IntegerType::U32 => {},
        IntegerType::U64 => {},
        IntegerType::U128 => {},
    }
}

/// What an integer wraps to is a value of the type.
pub proof fn lemma_wrap_in_range(integer_type: IntegerType, x: int)
    ensures
        integer_type.in_range(integer_type.wrap(x)),
{
    match integer_type {
        IntegerType::I8 => {},
        IntegerType::I16 => {},
        IntegerType::I32 => {},
        IntegerType::I64 => {},
        IntegerType::I128 => {},
        IntegerType::U8 => {},
        IntegerType::U16 => {},
        IntegerType::U32 => {},
        IntegerType::U64 => {},
        IntegerType::U128 => {},
    }
}

/// An integer literal that fits its type stays and hands up its value.
pub proof fn lemma_integer_literal(pass: Flattener, integer_type: IntegerType, a: Numeral, span: Span)
    requires
        integer_type.in_range(a.value()),
    ensures
        reconstructed_expression(
            pass,
            Expression::Literal(LiteralExpression::Integer(integer_type, a, span)),
        ) == (
            pass,
            (
                Expression::Literal(LiteralExpression::Integer(integer_type, a, span)),
                Some(Value::integer(integer_type, a.value(), span)),
            ),
        ),
{
    reveal_with_fuel(reconstructed_expression, 1);
}

/// A binary expression of two integer literals that fit their type is
/// reconstructed to what the pass makes of the node and the two values.
pub proof fn lemma_binary_of_literals(
    pass: Flattener,
    op: BinaryOperation,
    integer_type: IntegerType,
    a: Numeral,
    b: Numeral,
    left_span: Span,
    right_span: Span,
    span: Span,
)
    requires
        integer_type.in_range(a.value()),
        integer_type.in_range(b.value()),
    ensures
        ({
            let input = of_integer_literals(op, integer_type, a, b, left_span, right_span, span);
            reconstructed_expression(pass, Expression::Binary(input)) == pass.binary_model(
                input,
                input,
                Some(Value::integer(integer_type, a.value(), left_span)),
                Some(Value::integer(integer_type, b.value(), right_span)),
            )
        }),
{
    lemma_integer_literal(pass, integer_type, a, left_span);
    lemma_integer_literal(pass, integer_type, b, right_span);
    reveal_with_fuel(reconstructed_expression, 1);
}

/// A checked arithmetic operator on two integer literals of one type,
/// whose exact result is a value of that type, is replaced by the literal
/// of the result, and the result is handed up. No binary node is left in
/// its place, and nothing is reported.
pub proof fn law_checked_arithmetic_folds(
    pass: Flattener,
    op: BinaryOperation,
    integer_type: IntegerType,
    a: Numeral,
    b: Numeral,
    left_span: Span,
    right_span: Span,
    span: Span,
    x: int,
)
    requires
        integer_type.in_range(a.value()),
        integer_type.in_range(b.value()),
        checked_arithmetic(op) matches Some(arithmetic) && exact(arithmetic, a.value(), b.value())
            == Ok::<int, EvalErrorKind>(x),
        integer_type.in_range(x),
    ensures
        reconstructed_expression(
            pass,
            Expression::Binary(
                of_integer_literals(op, integer_type, a, b, left_span, right_span, span),
            ),
        ) == (
            pass,
            (
                Expression::Literal(LiteralExpression::Integer(integer_type, Numeral::of_int(x), span)),
                Some(Value::integer(integer_type, x, span)),
            ),
        ),
{
    let left = Value::integer(integer_type, a.value(), left_span);
    let right = Value::integer(integer_type, b.value(), right_span);
    lemma_binary_of_literals(pass, op, integer_type, a, b, left_span, right_span, span);
    lemma_integer_value(integer_type, a.value(), left_span);
    lemma_integer_value(integer_type, b.value(), right_span);
    lemma_integer_value(integer_type, x, span);
    assert(evaluated(op, left, right, span) == Ok::<Value, EvalError>(
        Value::integer(integer_type, x, span),
    ));
}

/// A checked arithmetic operator on two integer literals of one type,
/// whose exact result is not a value of that type, stays as it is and
/// hands up nothing; the overflow is reported at the place of the
/// operator, after what was reported before.
pub proof fn law_checked_overflow_is_reported(
    pass: Flattener,
    op: BinaryOperation,
    integer_type: IntegerType,
    a: Numeral,
    b: Numeral,
    left_span: Span,
    right_span: Span,
    span: Span,
    x: int,
)
    requires
        integer_type.in_range(a.value()),
        integer_type.in_range(b.value()),
        checked_arithmetic(op) matches Some(arithmetic) && exact(arithmetic, a.value(), b.value())
            == Ok::<int, EvalErrorKind>(x),
        !integer_type.in_range(x),
    ensures
        ({
            let input = of_integer_literals(op, integer_type, a, b, left_span, right_span, span);
            let (after, (output, value)) = reconstructed_expression(
                pass,
                Expression::Binary(input),
            );
            &&& output == Expression::Binary(input)
            &&& value is None
            &&& after.symbol_table == pass.symbol_table
            &&& after.handler@ == pass.handler@.push(
                Diagnostic::of_eval_error(EvalError { kind: EvalErrorKind::Overflow, span }),
            )
        }),
{
    let left = Value::integer(integer_type, a.value(), left_span);
    let right = Value::integer(integer_type, b.value(), right_span);
    lemma_binary_of_literals(pass, op, integer_type, a, b, left_span, right_span, span);
    lemma_integer_value(integer_type, a.value(), left_span);
    lemma_integer_value(integer_type, b.value(), right_span);
    assert(evaluated(op, left, right, span) == Err::<Value, EvalError>(
        EvalError { kind: EvalErrorKind::Overflow, span },
    ));
}

/// A wrapped arithmetic operator on two integer literals of one type that
/// has an exact result is replaced by the literal of that result reduced
/// to the width of the type, whether or not the exact result is in range.
pub proof fn law_wrapped_arithmetic_folds(
    pass: Flattener,
    op: BinaryOperation,
    integer_type: IntegerType,
    a: Numeral,
    b: Numeral,
    left_span: Span,
    right_span: Span,
    span: Span,
    x: int,
)
    requires
        integer_type.in_range(a.value()),
        integer_type.in_range(b.value()),
        wrapped_arithmetic(op) matches Some(arithmetic) && exact(arithmetic, a.value(), b.value())
            == Ok::<int, EvalErrorKind>(x),
    ensures
        integer_type.in_range(integer_type.wrap(x)),
        reconstructed_expression(
            pass,
            Expression::Binary(
                of_integer_literals(op, integer_type, a, b, left_span, right_span, span),
            ),
        ) == (
            pass,
            (
                Expression::Literal(
                    LiteralExpression::Integer(
                        integer_type,
                        Numeral::of_int(integer_type.wrap(x)),
                        span,
                    ),
                ),
                Some(Value::integer(integer_type, integer_type.wrap(x), span)),
            ),
        ),
{
    let left = Value::integer(integer_type, a.value(), left_span);
    let right = Value::integer(integer_type, b.value(), right_span);
    lemma_binary_of_literals(pass, op, integer_type, a, b, left_span, right_span, span);
    lemma_integer_value(integer_type, a.value(), left_span);
    lemma_integer_value(integer_type, b.value(), right_span);
    lemma_wrap_in_range(integer_type, x);
    lemma_integer_value(integer_type, integer_type.wrap(x), span);
    assert(evaluated(op, left, right, span) == Ok::<Value, EvalError>(
        Value::integer(integer_type, integer_type.wrap(x), span),
    ));
}

/// A binary expression whose operands both have a value, neither of a
/// foldable kind, stays as it is and hands up nothing, whatever its
/// operator. Nothing is reported for the node itself.
pub proof fn law_unfoldable_operands_stay(pass: Flattener, input: BinaryExpression)
    requires
        ({
            let (after_left, (_, left)) = reconstructed_expression(pass, *input.left);
            let (_, (_, right)) = reconstructed_expression(after_left, *input.right);
            &&& left matches Some(left_value) && !left_value.foldable()
            &&& right matches Some(right_value) && !right_value.foldable()
        }),
    ensures
        ({
            let (after_left, _) = reconstructed_expression(pass, *input.left);
            let (after_right, _) = reconstructed_expression(after_left, *input.right);
            reconstructed_expression(pass, Expression::Binary(input)) == (
                after_right,
                (Expression::Binary(input), None::<Value>),
            )
        }),
{
    reveal_with_fuel(reconstructed_expression, 1);
}

/// A unary expression is never replaced by a node of another kind.
pub proof fn law_unary_keeps_shape(pass: Flattener, input: UnaryExpression)
    ensures
        reconstructed_expression(pass, Expression::Unary(input)).1.0 is Unary,
{
    reveal_with_fuel(reconstructed_expression, 1);
}

/// A unary expression whose operand has a value of a foldable kind, and
/// whose operation on that value succeeds, becomes the same operator on
/// the reconstructed operand and hands up the result of the operation.
pub proof fn law_unary_folds_in_place(pass: Flattener, input: UnaryExpression, value: Value, result: Value)
    requires
        reconstructed_expression(pass, *input.receiver).1.1 == Some(value),
        value.foldable(),
        evaluated_unary(input.op, value, input.span) == Ok::<Value, EvalError>(result),
    ensures
        ({
            let (after, (receiver, _)) = reconstructed_expression(pass, *input.receiver);
            reconstructed_expression(pass, Expression::Unary(input)) == (
                after,
                (
                    Expression::Unary(
                        UnaryExpression {
                            receiver: Box::new(receiver),
                            op: input.op,
                            span: input.span,
                        },
                    ),
                    Some(result),
                ),
            )
        }),
{
    reveal_with_fuel(reconstructed_expression, 1);
}

} // verus!
