//! The flattening pass: constant folding.
//!
//! The pass reconstructs expressions and carries, as additional output,
//! the value of every expression that is known at compile time. A binary
//! expression whose operands are both known is replaced by the literal of
//! its value. A unary expression keeps its shape and only hands its value
//! up. An operation that fails is reported and left as it was; the pass
//! goes on with the rest of the tree.

use vstd::prelude::*;
use crate::diagnostics::{Diagnostic, Handler};
use crate::expression::{
    AccessExpression,
    BinaryExpression,
    BinaryOperation,
    CallExpression,
    ErrExpression,
    Expression,
    Identifier,
    LiteralExpression,
    StructExpression,
    TernaryExpression,
    TupleExpression,
    UnaryExpression,
    UnaryOperation,
};
use crate::program::Function;
use crate::reconstructor::{ExpressionReconstructor, ProgramReconstructor, StatementReconstructor};
use crate::statement::{
    AssignStatement,
    Block,
    ConditionalStatement,
    ConsoleStatement,
    DecrementStatement,
    DefinitionStatement,
    FinalizeStatement,
    IncrementStatement,
    IterationStatement,
    ReturnStatement,
    Statement,
};
use crate::span::{Span, Symbol};
use crate::symbol_table::{Declaration, SymbolTable};
use crate::types::Numeral;
use crate::value::{Arithmetic, Bitwise, Comparison, EvalError, EvalErrorKind, Value};

verus! {

/// The literal that spells `value`, at the place of the value.
pub open spec fn literal_of(value: Value) -> LiteralExpression {
    match value {
        Value::Address(text, span) => LiteralExpression::Address(text, span),
        Value::Boolean(truth, span) => LiteralExpression::Boolean(truth, span),
        Value::Field(text, span) => LiteralExpression::Field(text, span),
        Value::Group(text, span) => LiteralExpression::Group(text, span),
        Value::Scalar(text, span) => LiteralExpression::Scalar(text, span),
        Value::String(text, span) => LiteralExpression::String(text, span),
        Value::I8(_, span) | Value::I16(_, span) | Value::I32(_, span) | Value::I64(_, span)
        | Value::I128(_, span) | Value::U8(_, span) | Value::U16(_, span) | Value::U32(_, span)
        | Value::U64(_, span) | Value::U128(_, span) => LiteralExpression::Integer(
            value.integer_type()->0,
            Numeral::of_int(value.as_int()),
            span,
        ),
    }
}

/// The value that `literal` spells. An integer literal that does not fit
/// its type has none: that is an overflow at the place of the literal.
pub open spec fn value_of(literal: LiteralExpression) -> Result<Value, EvalError> {
    match literal {
        LiteralExpression::Address(text, span) => Ok(Value::Address(text, span)),
        LiteralExpression::Boolean(truth, span) => Ok(Value::Boolean(truth, span)),
        LiteralExpression::Field(text, span) => Ok(Value::Field(text, span)),
        LiteralExpression::Group(text, span) => Ok(Value::Group(text, span)),
        LiteralExpression::Scalar(text, span) => Ok(Value::Scalar(text, span)),
        LiteralExpression::String(text, span) => Ok(Value::String(text, span)),
        LiteralExpression::Integer(integer_type, numeral, span) => match Value::of_numeral(
            integer_type,
            numeral,
            span,
        ) {
            Some(value) => Ok(value),
            None => Err(EvalError { kind: EvalErrorKind::Overflow, span }),
        },
    }
}

/// The complement of the result of an operation, if that has a result.
pub open spec fn complement_of(result: Result<Value, EvalError>, span: Span) -> Result<
    Value,
    EvalError,
> {
    match result {
        Ok(value) => value.complemented(span),
        Err(error) => Err(error),
    }
}

/// The value of a binary operation on two constants. `Nand` and `Nor` are
/// both the complement of the conjunction, and `Neq` is the complement of
/// the equality.
pub open spec fn evaluated(op: BinaryOperation, left: Value, right: Value, span: Span) -> Result<
    Value,
    EvalError,
> {
    match op {
        BinaryOperation::Add => Value::checked(Arithmetic::Add, left, right, span),
        BinaryOperation::AddWrapped => Value::wrapped(Arithmetic::Add, left, right, span),
        BinaryOperation::And | BinaryOperation::BitwiseAnd => Value::combined(
            Bitwise::And,
            left,
            right,
            span,
        ),
        BinaryOperation::Div => Value::checked(Arithmetic::Div, left, right, span),
        BinaryOperation::DivWrapped => Value::wrapped(Arithmetic::Div, left, right, span),
        BinaryOperation::Eq => Value::compared(Comparison::Eq, left, right, span),
        BinaryOperation::Ge => Value::compared(Comparison::Ge, left, right, span),
        BinaryOperation::Gt => Value::compared(Comparison::Gt, left, right, span),
        BinaryOperation::Le => Value::compared(Comparison::Le, left, right, span),
        BinaryOperation::Lt => Value::compared(Comparison::Lt, left, right, span),
        BinaryOperation::Mul => Value::checked(Arithmetic::Mul, left, right, span),
        BinaryOperation::MulWrapped => Value::wrapped(Arithmetic::Mul, left, right, span),
        BinaryOperation::Nand | BinaryOperation::Nor => complement_of(
            Value::combined(Bitwise::And, left, right, span),
            span,
        ),
        BinaryOperation::Neq => complement_of(
            Value::compared(Comparison::Eq, left, right, span),
            span,
        ),
        BinaryOperation::Or | BinaryOperation::BitwiseOr => Value::combined(
            Bitwise::Or,
            left,
            right,
            span,
        ),
        BinaryOperation::Pow => Value::checked(Arithmetic::Pow, left, right, span),
        BinaryOperation::PowWrapped => Value::wrapped(Arithmetic::Pow, left, right, span),
        BinaryOperation::Shl => Value::shifted(true, false, left, right, span),
        BinaryOperation::ShlWrapped => Value::shifted(true, true, left, right, span),
        BinaryOperation::Shr => Value::shifted(false, false, left, right, span),
        BinaryOperation::ShrWrapped => Value::shifted(false, true, left, right, span),
        BinaryOperation::Sub => Value::checked(Arithmetic::Sub, left, right, span),
        BinaryOperation::SubWrapped => Value::wrapped(Arithmetic::Sub, left, right, span),
        BinaryOperation::Xor => Value::combined(Bitwise::Xor, left, right, span),
    }
}

/// The value of a unary operation on a constant.
pub open spec fn evaluated_unary(op: UnaryOperation, value: Value, span: Span) -> Result<
    Value,
    EvalError,
> {
    match op {
        UnaryOperation::Negate => value.negated(span),
        UnaryOperation::Not => value.complemented(span),
    }
}

impl Value {
    /// The literal that spells the value, at the place of the value.
    pub fn to_literal(&self) -> (literal: LiteralExpression)
        ensures
            literal == literal_of(*self),
    {
        match self {
            Value::Address(text, span) => LiteralExpression::Address(*text, *span),
            Value::Boolean(truth, span) => LiteralExpression::Boolean(*truth, *span),
            Value::Field(text, span) => LiteralExpression::Field(*text, *span),
            Value::Group(text, span) => LiteralExpression::Group(*text, *span),
            Value::Scalar(text, span) => LiteralExpression::Scalar(*text, *span),
            Value::String(text, span) => LiteralExpression::String(*text, *span),
            Value::I8(_, span) | Value::I16(_, span) | Value::I32(_, span) | Value::I64(_, span)
            | Value::I128(_, span) | Value::U8(_, span) | Value::U16(_, span)
            | Value::U32(_, span) | Value::U64(_, span) | Value::U128(_, span) => {
                match self.to_numeral() {
                    Some((integer_type, numeral)) => LiteralExpression::Integer(
                        integer_type,
                        numeral,
                        *span,
                    ),
                    None => unreached(),
                }
            },
        }
    }

    /// The value that `literal` spells, or the overflow of an integer
    /// literal that does not fit its type.
    pub fn from_literal(literal: LiteralExpression) -> (result: Result<Value, EvalError>)
        ensures
            result == value_of(literal),
    {
        match literal {
            LiteralExpression::Address(text, span) => Ok(Value::Address(text, span)),
            LiteralExpression::Boolean(truth, span) => Ok(Value::Boolean(truth, span)),
            LiteralExpression::Field(text, span) => Ok(Value::Field(text, span)),
            LiteralExpression::Group(text, span) => Ok(Value::Group(text, span)),
            LiteralExpression::Scalar(text, span) => Ok(Value::Scalar(text, span)),
            LiteralExpression::String(text, span) => Ok(Value::String(text, span)),
            LiteralExpression::Integer(integer_type, numeral, span) => {
                match Value::from_numeral(integer_type, numeral, span) {
                    Some(value) => Ok(value),
                    None => Err(EvalError { kind: EvalErrorKind::Overflow, span }),
                }
            },
        }
    }
}

/// Computes the value of a binary operation on two constants.
pub fn evaluate(op: BinaryOperation, left: Value, right: Value, span: Span) -> (result: Result<
    Value,
    EvalError,
>)
    ensures
        result == evaluated(op, left, right, span),
{
    match op {
        BinaryOperation::Add => left.add(right, span),
        BinaryOperation::AddWrapped => left.add_wrapped(right, span),
        BinaryOperation::And | BinaryOperation::BitwiseAnd => left.bitand(right, span),
        BinaryOperation::Div => left.div(right, span),
        BinaryOperation::DivWrapped => left.div_wrapped(right, span),
        BinaryOperation::Eq => left.eq(right, span),
        BinaryOperation::Ge => left.ge(right, span),
        BinaryOperation::Gt => left.gt(right, span),
        BinaryOperation::Le => left.le(right, span),
        BinaryOperation::Lt => left.lt(right, span),
        BinaryOperation::Mul => left.mul(right, span),
        BinaryOperation::MulWrapped => left.mul_wrapped(right, span),
        BinaryOperation::Nand | BinaryOperation::Nor => match left.bitand(right, span) {
            Ok(both) => both.not(span),
            Err(error) => Err(error),
        },
        BinaryOperation::Neq => match left.eq(right, span) {
            Ok(equal) => equal.not(span),
            Err(error) => Err(error),
        },
        BinaryOperation::Or | BinaryOperation::BitwiseOr => left.bitor(right, span),
        BinaryOperation::Pow => left.pow(right, span),
        BinaryOperation::PowWrapped => left.pow_wrapped(right, span),
        BinaryOperation::Shl => left.shl(right, span),
        BinaryOperation::ShlWrapped => left.shl_wrapped(right, span),
        BinaryOperation::Shr => left.shr(right, span),
        BinaryOperation::ShrWrapped => left.shr_wrapped(right, span),
        BinaryOperation::Sub => left.sub(right, span),
        BinaryOperation::SubWrapped => left.sub_wrapped(right, span),
        BinaryOperation::Xor => left.xor(right, span),
    }
}

/// The constant-folding pass. It reads the symbol table and writes to the
/// handler.
#[derive(Debug, PartialEq, Eq)]
pub struct Flattener {
    /// The variables in reach, with the values that are known of them.
    pub symbol_table: SymbolTable,
    /// Where failed operations are reported.
    pub handler: Handler,
}

impl Flattener {
    /// The pass after it reported `error`.
    pub open spec fn reported(self, error: EvalError) -> Flattener {
        Flattener {
            symbol_table: self.symbol_table,
            handler: self.handler.with(Diagnostic::of_eval_error(error)),
        }
    }

    /// The value known of the variable `name`: the folded value of its
    /// declaration, if the name is bound to a constant or a mutable
    /// variable that has one.
    pub open spec fn known_value(self, name: Symbol) -> Option<Value> {
        match self.symbol_table.resolve(name) {
            Some(variable) => match variable.declaration {
                Declaration::Const(Some(value)) => Some(value),
                Declaration::Mut(Some(value)) => Some(value),
                _ => None,
            },
            None => None,
        }
    }

    /// A pass over the given table that reports to the given handler.
    pub fn new(symbol_table: SymbolTable, handler: Handler) -> (pass: Flattener)
        ensures
            pass == (Flattener { symbol_table, handler }),
    {
        Flattener { symbol_table, handler }
    }

    /// Ends the pass and gives back the table and the handler.
    pub fn finish(self) -> (parts: (SymbolTable, Handler))
        ensures
            parts == (self.symbol_table, self.handler),
    {
        (self.symbol_table, self.handler)
    }
}

impl ExpressionReconstructor for Flattener {
    type AdditionalOutput = Option<Value>;

    open spec fn wf(&self) -> bool {
        true
    }

    open spec fn no_output() -> Option<Value> {
        None
    }

    /// The callee of a call is left as it stands.
    open spec fn callee_reconstructed(&self) -> bool {
        false
    }

    /// An identifier stays, and hands up the value known of its variable.
    open spec fn identifier_model(&self, input: Identifier) -> (
        Self,
        (Expression, Option<Value>),
    ) {
        (*self, (Expression::Identifier(input), self.known_value(input.name)))
    }

    /// A literal stays, and hands up the value it spells. A literal that
    /// spells none is reported.
    open spec fn literal_model(&self, input: LiteralExpression) -> (
        Self,
        (Expression, Option<Value>),
    ) {
        match value_of(input) {
            Ok(value) => (*self, (Expression::Literal(input), Some(value))),
            Err(error) => (self.reported(error), (Expression::Literal(input), None)),
        }
    }

    /// A binary expression is replaced by the literal of its value where
    /// both operands have a value, at least one of them of a foldable
    /// kind, and the operation succeeds. A failed operation is reported.
    /// In every other case the node stays as it was before its operands
    /// were reconstructed.
    open spec fn binary_model(
        &self,
        input: BinaryExpression,
        rebuilt: BinaryExpression,
        left: Option<Value>,
        right: Option<Value>,
    ) -> (Self, (Expression, Option<Value>)) {
        match (left, right) {
            (Some(left_value), Some(right_value)) => if !left_value.foldable()
                && !right_value.foldable() {
                (*self, (Expression::Binary(input), None))
            } else {
                match evaluated(input.op, left_value, right_value, input.span) {
                    Ok(value) => (*self, (Expression::Literal(literal_of(value)), Some(value))),
                    Err(error) => (self.reported(error), (Expression::Binary(input), None)),
                }
            },
            _ => (*self, (Expression::Binary(input), None)),
        }
    }

    /// A unary expression keeps its shape, with its operand reconstructed,
    /// and hands up its value where the operand has a value of a foldable
    /// kind. A failed operation is reported, and the node then stays as it
    /// was before its operand was reconstructed.
    open spec fn unary_model(
        &self,
        input: UnaryExpression,
        rebuilt: UnaryExpression,
        receiver: Option<Value>,
    ) -> (Self, (Expression, Option<Value>)) {
        match receiver {
            Some(value) => if value.foldable() {
                match evaluated_unary(input.op, value, input.span) {
                    Ok(result) => (*self, (Expression::Unary(rebuilt), Some(result))),
                    Err(error) => (self.reported(error), (Expression::Unary(input), None)),
                }
            } else {
                (*self, (Expression::Unary(rebuilt), None))
            },
            None => (*self, (Expression::Unary(rebuilt), None)),
        }
    }

    fn reconstructs_callee(&self) -> (reconstructed: bool) {
        false
    }

    fn reconstruct_identifier(&mut self, input: Identifier) -> (result: (
        Expression,
        Option<Value>,
    )) {
        let value = match self.symbol_table.lookup_variable(input.name) {
            Some(variable) => match variable.declaration {
                Declaration::Const(Some(value)) => Some(value),
                Declaration::Mut(Some(value)) => Some(value),
                _ => None,
            },
            None => None,
        };
        (Expression::Identifier(input), value)
    }

    fn reconstruct_literal(&mut self, input: LiteralExpression) -> (result: (
        Expression,
        Option<Value>,
    )) {
        match Value::from_literal(input) {
            Ok(value) => (Expression::Literal(input), Some(value)),
            Err(error) => {
                self.handler.emit_err(error);
                (Expression::Literal(input), None)
            },
        }
    }

    fn reconstruct_binary(
        &mut self,
        input: &BinaryExpression,
        rebuilt: BinaryExpression,
        left: Option<Value>,
        right: Option<Value>,
    ) -> (result: (Expression, Option<Value>)) {
        match (left, right) {
            (Some(left_value), Some(right_value)) => {
                if !left_value.is_supported_const_fold_type()
                    && !right_value.is_supported_const_fold_type() {
                    (Expression::Binary(input.duplicate()), None)
                } else {
                    match evaluate(input.op, left_value, right_value, input.span) {
                        Ok(value) => (Expression::Literal(value.to_literal()), Some(value)),
                        Err(error) => {
                            self.handler.emit_err(error);
                            (Expression::Binary(input.duplicate()), None)
                        },
                    }
                }
            },
            _ => (Expression::Binary(input.duplicate()), None),
        }
    }

    fn reconstruct_unary(
        &mut self,
        input: &UnaryExpression,
        rebuilt: UnaryExpression,
        receiver: Option<Value>,
    ) -> (result: (Expression, Option<Value>)) {
        match receiver {
            Some(value) => {
                if value.is_supported_const_fold_type() {
                    let outcome = match input.op {
                        UnaryOperation::Negate => value.neg(input.span),
                        UnaryOperation::Not => value.not(input.span),
                    };
                    match outcome {
                        Ok(result) => (Expression::Unary(rebuilt), Some(result)),
                        Err(error) => {
                            self.handler.emit_err(error);
                            (Expression::Unary(input.duplicate()), None)
                        },
                    }
                } else {
                    (Expression::Unary(rebuilt), None)
                }
            },
            None => (Expression::Unary(rebuilt), None),
        }
    }

    fn reconstruct_ternary(&mut self, input: &TernaryExpression, rebuilt: TernaryExpression) -> (result:
        (Expression, Option<Value>)) {
        (Expression::Ternary(rebuilt), None)
    }

    fn reconstruct_call(&mut self, input: &CallExpression, rebuilt: CallExpression) -> (result: (
        Expression,
        Option<Value>,
    )) {
        (Expression::Call(rebuilt), None)
    }

    fn reconstruct_access(&mut self, input: &AccessExpression, rebuilt: AccessExpression) -> (result:
        (Expression, Option<Value>)) {
        (Expression::Access(rebuilt), None)
    }

    fn reconstruct_struct_init(&mut self, input: &StructExpression) -> (result: (
        Expression,
        Option<Value>,
    )) {
        (Expression::Struct(input.duplicate()), None)
    }

    fn reconstruct_tuple(&mut self, input: &TupleExpression, rebuilt: TupleExpression) -> (result: (
        Expression,
        Option<Value>,
    )) {
        (Expression::Tuple(rebuilt), None)
    }

    fn reconstruct_err(&mut self, input: ErrExpression) -> (result: (
        Expression,
        Option<Value>,
    )) {
        (Expression::Error(input), None)
    }
}

/// Statements keep their shape: only the expressions in them are folded.
impl StatementReconstructor for Flattener {
    fn reconstruct_return(&mut self, rebuilt: ReturnStatement, value: Option<Value>) -> (result:
        Statement) {
        Statement::Return(rebuilt)
    }

    fn reconstruct_definition(&mut self, rebuilt: DefinitionStatement, value: Option<Value>) -> (result:
        Statement) {
        Statement::Definition(rebuilt)
    }

    fn reconstruct_assign(&mut self, rebuilt: AssignStatement, value: Option<Value>) -> (result:
        Statement) {
        Statement::Assign(Box::new(rebuilt))
    }

    fn reconstruct_conditional(&mut self, rebuilt: ConditionalStatement) -> (result: Statement) {
        Statement::Conditional(rebuilt)
    }

    fn reconstruct_iteration(&mut self, rebuilt: IterationStatement) -> (result: Statement) {
        Statement::Iteration(Box::new(rebuilt))
    }

    fn reconstruct_console(&mut self, rebuilt: ConsoleStatement) -> (result: Statement) {
        Statement::Console(rebuilt)
    }

    fn reconstruct_decrement(&mut self, rebuilt: DecrementStatement) -> (result: Statement) {
        Statement::Decrement(rebuilt)
    }

    fn reconstruct_increment(&mut self, rebuilt: IncrementStatement) -> (result: Statement) {
        Statement::Increment(rebuilt)
    }

    fn reconstruct_finalize(&mut self, rebuilt: FinalizeStatement) -> (result: Statement) {
        Statement::Finalize(rebuilt)
    }

    fn reconstruct_block(&mut self, rebuilt: Block) -> (result: Block) {
        rebuilt
    }
}

/// Functions keep their shape as well.
impl ProgramReconstructor for Flattener {
    fn reconstruct_function(&mut self, rebuilt: Function) -> (result: Function) {
        rebuilt
    }
}

} // verus!
