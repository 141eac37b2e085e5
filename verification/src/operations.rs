//! The operations of the constant evaluator, one function for each.
//!
//! Both operands of a binary operation must be of the same kind: nothing
//! is widened or converted. The result carries the place of the operation.

use vstd::prelude::*;
use vstd::arithmetic::div_mod::{lemma_fundamental_div_mod, lemma_fundamental_div_mod_converse};
use crate::arithmetic::{exact_result, lemma_wrap_congruent, residue_result};
use crate::span::Span;
use crate::types::{IntegerType, Numeral};
use crate::value::{Arithmetic, Bitwise, Comparison, EvalError, EvalErrorKind, Value};

verus! {

/// The residue of the negation of `m`, from the residue of `m`.
pub proof fn lemma_negative_residue(m: int, modulus: int)
    requires
        modulus > 0,
    ensures
        (-m) % modulus == (if m % modulus == 0 {
            0
        } else {
            modulus - m % modulus
        }),
{
    let q = m / modulus;
    let r = m % modulus;
    lemma_fundamental_div_mod(m, modulus);
    if r == 0 {
        assert(-m == (-q) * modulus + 0) by (nonlinear_arith)
            requires
                m == modulus * q + r,
                r == 0,
        ;
        lemma_fundamental_div_mod_converse(-m, modulus, -q, 0);
    } else {
        assert(-m == (-q - 1) * modulus + (modulus - r)) by (nonlinear_arith)
            requires
                m == modulus * q + r,
        ;
        lemma_fundamental_div_mod_converse(-m, modulus, -q - 1, modulus - r);
    }
}

impl IntegerType {
    /// The least natural number that differs from the numeral by a
    /// multiple of `modulus`.
    fn low_bits(&self, numeral: Numeral) -> (kept: u128)
        ensures
            kept == numeral.value() % self.modulus(),
    {
        let m = numeral.magnitude;
        proof {
            lemma_negative_residue(m as int, self.modulus());
        }
        let low = match self {
            IntegerType::I8 | IntegerType::U8 => m % 0x100,
            IntegerType::I16 | IntegerType::U16 => m % 0x1_0000,
            IntegerType::I32 | IntegerType::U32 => m % 0x1_0000_0000,
            IntegerType::I64 | IntegerType::U64 => m % 0x1_0000_0000_0000_0000,
            IntegerType::I128 | IntegerType::U128 => m,
        };
        if numeral.negative && low != 0 {
            match self {
                IntegerType::I8 | IntegerType::U8 => 0x100 - low,
                IntegerType::I16 | IntegerType::U16 => 0x1_0000 - low,
                IntegerType::I32 | IntegerType::U32 => 0x1_0000_0000 - low,
                IntegerType::I64 | IntegerType::U64 => 0x1_0000_0000_0000_0000 - low,
                IntegerType::I128 | IntegerType::U128 => (u128::MAX - low) + 1,
            }
        } else {
            low
        }
    }

    /// The value of the type whose bits are those of `kept`.
    fn with_bits(&self, kept: u128, span: Span) -> (value: Value)
        requires
            kept < self.modulus(),
        ensures
            value == Value::integer(
                *self,
                if kept > self.max_value() {
                    kept - self.modulus()
                } else {
                    kept as int
                },
                span,
            ),
    {
        match self {
            IntegerType::U8 => Value::U8(kept as u8, span),
            IntegerType::U16 => Value::U16(kept as u16, span),
            IntegerType::U32 => Value::U32(kept as u32, span),
            IntegerType::U64 => Value::U64(kept as u64, span),
            IntegerType::U128 => Value::U128(kept, span),
            IntegerType::I8 => Value::I8(
                (if kept > 0x7f { kept as i128 - 0x100 } else { kept as i128 }) as i8,
                span,
            ),
            IntegerType::I16 => Value::I16(
                (if kept > 0x7fff { kept as i128 - 0x1_0000 } else { kept as i128 }) as i16,
                span,
            ),
            IntegerType::I32 => Value::I32(
                (if kept > 0x7fff_ffff { kept as i128 - 0x1_0000_0000 } else { kept as i128 })
                    as i32,
                span,
            ),
            IntegerType::I64 => Value::I64(
                (if kept > 0x7fff_ffff_ffff_ffff {
                    kept as i128 - 0x1_0000_0000_0000_0000
                } else {
                    kept as i128
                }) as i64,
                span,
            ),
            IntegerType::I128 => Value::I128(
                if kept > 0x7fff_ffff_ffff_ffff_ffff_ffff_ffff_ffff {
                    (kept - 0x8000_0000_0000_0000_0000_0000_0000_0000) as i128 + i128::MIN
                } else {
                    kept as i128
                },
                span,
            ),
        }
    }

    /// The value of the type that `numeral` wraps to.
    pub fn wrap_numeral(&self, numeral: Numeral, span: Span) -> (value: Value)
        ensures
            value == Value::integer(*self, self.wrap(numeral.value()), span),
    {
        let kept = self.low_bits(numeral);
        self.with_bits(kept, span)
    }
}

impl Value {
    /// What an operation on the bits of both operands gives: on two
    /// booleans the logical operation, on two integers of one type the
    /// operation bit by bit.
    pub open spec fn combined(kind: Bitwise, left: Value, right: Value, span: Span) -> Result<
        Value,
        EvalError,
    > {
        match (left, right) {
            (Value::Boolean(a, _), Value::Boolean(b, _)) => Ok(
                Value::Boolean(
                    match kind {
                        Bitwise::And => a && b,
                        Bitwise::Or => a || b,
                        Bitwise::Xor => a != b,
                    },
                    span,
                ),
            ),
            (Value::I8(a, _), Value::I8(b, _)) => Ok(
                Value::I8(
                    match kind {
                        Bitwise::And => a & b,
                        Bitwise::Or => a | b,
                        Bitwise::Xor => a ^ b,
                    },
                    span,
                ),
            ),
            (Value::I16(a, _), Value::I16(b, _)) => Ok(
                Value::I16(
                    match kind {
                        Bitwise::And => a & b,
                        Bitwise::Or => a | b,
                        Bitwise::Xor => a ^ b,
                    },
                    span,
                ),
            ),
            (Value::I32(a, _), Value::I32(b, _)) => Ok(
                Value::I32(
                    match kind {
                        Bitwise::And => a & b,
                        Bitwise::Or => a | b,
                        Bitwise::Xor => a ^ b,
                    },
                    span,
                ),
            ),
            (Value::I64(a, _), Value::I64(b, _)) => Ok(
                Value::I64(
                    match kind {
                        Bitwise::And => a & b,
                        Bitwise::Or => a | b,
                        Bitwise::Xor => a ^ b,
                    },
                    span,
                ),
            ),
            (Value::I128(a, _), Value::I128(b, _)) => Ok(
                Value::I128(
                    match kind {
                        Bitwise::And => a & b,
                        Bitwise::Or => a | b,
                        Bitwise::Xor => a ^ b,
                    },
                    span,
                ),
            ),
            (Value::U8(a, _), Value::U8(b, _)) => Ok(
                Value::U8(
                    match kind {
                        Bitwise::And => a & b,
                        Bitwise::Or => a | b,
                        Bitwise::Xor => a ^ b,
                    },
                    span,
                ),
            ),
            (Value::U16(a, _), Value::U16(b, _)) => Ok(
                Value::U16(
                    match kind {
                        Bitwise::And => a & b,
                        Bitwise::Or => a | b,
                        Bitwise::Xor => a ^ b,
                    },
                    span,
                ),
            ),
            (Value::U32(a, _), Value::U32(b, _)) => Ok(
                Value::U32(
                    match kind {
                        Bitwise::And => a & b,
                        Bitwise::Or => a | b,
                        Bitwise::Xor => a ^ b,
                    },
                    span,
                ),
            ),
            (Value::U64(a, _), Value::U64(b, _)) => Ok(
                Value::U64(
                    match kind {
                        Bitwise::And => a & b,
                        Bitwise::Or => a | b,
                        Bitwise::Xor => a ^ b,
                    },
                    span,
                ),
            ),
            (Value::U128(a, _), Value::U128(b, _)) => Ok(
                Value::U128(
                    match kind {
                        Bitwise::And => a & b,
                        Bitwise::Or => a | b,
                        Bitwise::Xor => a ^ b,
                    },
                    span,
                ),
            ),
            _ => Err(EvalError { kind: EvalErrorKind::TypeMismatch, span }),
        }
    }

    /// The logical negation of a boolean, or an integer with every bit
    /// flipped.
    pub open spec fn complemented(self, span: Span) -> Result<Value, EvalError> {
        match self {
            Value::Boolean(a, _) => Ok(Value::Boolean(!a, span)),
            Value::I8(a, _) => Ok(Value::I8(!a, span)),
            Value::I16(a, _) => Ok(Value::I16(!a, span)),
            Value::I32(a, _) => Ok(Value::I32(!a, span)),
            Value::I64(a, _) => Ok(Value::I64(!a, span)),
            Value::I128(a, _) => Ok(Value::I128(!a, span)),
            Value::U8(a, _) => Ok(Value::U8(!a, span)),
            Value::U16(a, _) => Ok(Value::U16(!a, span)),
            Value::U32(a, _) => Ok(Value::U32(!a, span)),
            Value::U64(a, _) => Ok(Value::U64(!a, span)),
            Value::U128(a, _) => Ok(Value::U128(!a, span)),
            _ => Err(EvalError { kind: EvalErrorKind::TypeMismatch, span }),
        }
    }

    /// An integer with its bits moved by `amount` places, which is less
    /// than the width: to the left, dropping what leaves the width, or to
    /// the right, keeping the sign.
    pub open spec fn moved(self, to_left: bool, amount: u32, span: Span) -> Value {
        match self {
            Value::I8(a, _) => Value::I8(if to_left { a << amount } else { a >> amount }, span),
            Value::I16(a, _) => Value::I16(if to_left { a << amount } else { a >> amount }, span),
            Value::I32(a, _) => Value::I32(if to_left { a << amount } else { a >> amount }, span),
            Value::I64(a, _) => Value::I64(if to_left { a << amount } else { a >> amount }, span),
            Value::I128(a, _) => Value::I128(
                if to_left { a << amount } else { a >> amount },
                span,
            ),
            Value::U8(a, _) => Value::U8(if to_left { a << amount } else { a >> amount }, span),
            Value::U16(a, _) => Value::U16(if to_left { a << amount } else { a >> amount }, span),
            Value::U32(a, _) => Value::U32(if to_left { a << amount } else { a >> amount }, span),
            Value::U64(a, _) => Value::U64(if to_left { a << amount } else { a >> amount }, span),
            Value::U128(a, _) => Value::U128(
                if to_left { a << amount } else { a >> amount },
                span,
            ),
            other => other,
        }
    }

    /// A shift of `left` by `right`, both integers of one type. Checked, it
    /// fails unless the amount is at least zero and less than the width.
    /// Wrapped, the amount is first reduced modulo the width.
    pub open spec fn shifted(
        to_left: bool,
        wrapping: bool,
        left: Value,
        right: Value,
        span: Span,
    ) -> Result<Value, EvalError> {
        if left.same_integer_type(right) {
            let bits = left.integer_type()->0.bits();
            let amount = right.as_int();
            if wrapping {
                Ok(left.moved(to_left, (amount % bits) as u32, span))
            } else if 0 <= amount < bits {
                Ok(left.moved(to_left, amount as u32, span))
            } else {
                Err(EvalError { kind: EvalErrorKind::Overflow, span })
            }
        } else {
            Err(EvalError { kind: EvalErrorKind::TypeMismatch, span })
        }
    }

    fn check(op: Arithmetic, left: Value, right: Value, span: Span) -> (result: Result<
        Value,
        EvalError,
    >)
        ensures
            result == Value::checked(op, left, right, span),
    {
        match (left.to_numeral(), right.to_numeral()) {
            (Some((integer_type, a)), Some((other_type, b))) => {
                if integer_type == other_type {
                    match exact_result(op, a, b) {
                        Ok(n) => match Value::from_numeral(integer_type, n, span) {
                            Some(value) => Ok(value),
                            None => Err(EvalError { kind: EvalErrorKind::Overflow, span }),
                        },
                        Err(kind) => Err(EvalError { kind, span }),
                    }
                } else {
                    Err(EvalError { kind: EvalErrorKind::TypeMismatch, span })
                }
            },
            _ => Err(EvalError { kind: EvalErrorKind::TypeMismatch, span }),
        }
    }

    fn wrap(op: Arithmetic, left: Value, right: Value, span: Span) -> (result: Result<
        Value,
        EvalError,
    >)
        ensures
            result == Value::wrapped(op, left, right, span),
    {
        match (left.to_numeral(), right.to_numeral()) {
            (Some((integer_type, a)), Some((other_type, b))) => {
                if integer_type == other_type {
                    match residue_result(op, a, b) {
                        Ok(n) => {
                            proof {
                                lemma_wrap_congruent(
                                    integer_type,
                                    n.value(),
                                    crate::value::exact(op, a.value(), b.value())->Ok_0,
                                );
                            }
                            Ok(integer_type.wrap_numeral(n, span))
                        },
                        Err(kind) => Err(EvalError { kind, span }),
                    }
                } else {
                    Err(EvalError { kind: EvalErrorKind::TypeMismatch, span })
                }
            },
            _ => Err(EvalError { kind: EvalErrorKind::TypeMismatch, span }),
        }
    }

    fn compare(comparison: Comparison, left: Value, right: Value, span: Span) -> (result: Result<
        Value,
        EvalError,
    >)
        ensures
            result == Value::compared(comparison, left, right, span),
    {
        match (left.to_numeral(), right.to_numeral()) {
            (Some((integer_type, a)), Some((other_type, b))) => {
                if integer_type == other_type {
                    let less = if a.negative != b.negative {
                        a.negative
                    } else if a.negative {
                        a.magnitude > b.magnitude
                    } else {
                        a.magnitude < b.magnitude
                    };
                    let equal = a.negative == b.negative && a.magnitude == b.magnitude;
                    let truth = match comparison {
                        Comparison::Eq => equal,
                        Comparison::Ge => !less,
                        Comparison::Gt => !less && !equal,
                        Comparison::Le => less || equal,
                        Comparison::Lt => less,
                    };
                    Ok(Value::Boolean(truth, span))
                } else {
                    Err(EvalError { kind: EvalErrorKind::TypeMismatch, span })
                }
            },
            _ => match (comparison, left, right) {
                (Comparison::Eq, Value::Boolean(a, _), Value::Boolean(b, _)) => Ok(
                    Value::Boolean(a == b, span),
                ),
                _ => Err(EvalError { kind: EvalErrorKind::TypeMismatch, span }),
            },
        }
    }

    fn combine(kind: Bitwise, left: Value, right: Value, span: Span) -> (result: Result<
        Value,
        EvalError,
    >)
        ensures
            result == Value::combined(kind, left, right, span),
    {
        match (left, right) {
            (Value::Boolean(a, _), Value::Boolean(b, _)) => Ok(
                Value::Boolean(
                    match kind {
                        Bitwise::And => a && b,
                        Bitwise::Or => a || b,
                        Bitwise::Xor => a != b,
                    },
                    span,
                ),
            ),
            (Value::I8(a, _), Value::I8(b, _)) => Ok(
                Value::I8(
                    match kind {
                        Bitwise::And => a & b,
                        Bitwise::Or => a | b,
                        Bitwise::Xor => a ^ b,
                    },
                    span,
                ),
            ),
            (Value::I16(a, _), Value::I16(b, _)) => Ok(
                Value::I16(
                    match kind {
                        Bitwise::And => a & b,
                        Bitwise::Or => a | b,
                        Bitwise::Xor => a ^ b,
                    },
                    span,
                ),
            ),
            (Value::I32(a, _), Value::I32(b, _)) => Ok(
                Value::I32(
                    match kind {
                        Bitwise::And => a & b,
                        Bitwise::Or => a | b,
                        Bitwise::Xor => a ^ b,
                    },
                    span,
                ),
            ),
            (Value::I64(a, _), Value::I64(b, _)) => Ok(
                Value::I64(
                    match kind {
                        Bitwise::And => a & b,
                        Bitwise::Or => a | b,
                        Bitwise::Xor => a ^ b,
                    },
                    span,
                ),
            ),
            (Value::I128(a, _), Value::I128(b, _)) => Ok(
                Value::I128(
                    match kind {
                        Bitwise::And => a & b,
                        Bitwise::Or => a | b,
                        Bitwise::Xor => a ^ b,
                    },
                    span,
                ),
            ),
            (Value::U8(a, _), Value::U8(b, _)) => Ok(
                Value::U8(
                    match kind {
                        Bitwise::And => a & b,
                        Bitwise::Or => a | b,
                        Bitwise::Xor => a ^ b,
                    },
                    span,
                ),
            ),
            (Value::U16(a, _), Value::U16(b, _)) => Ok(
                Value::U16(
                    match kind {
                        Bitwise::And => a & b,
                        Bitwise::Or => a | b,
                        Bitwise::Xor => a ^ b,
                    },
                    span,
                ),
            ),
            (Value::U32(a, _), Value::U32(b, _)) => Ok(
                Value::U32(
                    match kind {
                        Bitwise::And => a & b,
                        Bitwise::Or => a | b,
                        Bitwise::Xor => a ^ b,
                    },
                    span,
                ),
            ),
            (Value::U64(a, _), Value::U64(b, _)) => Ok(
                Value::U64(
                    match kind {
                        Bitwise::And => a & b,
                        Bitwise::Or => a | b,
                        Bitwise::Xor => a ^ b,
                    },
                    span,
                ),
            ),
            (Value::U128(a, _), Value::U128(b, _)) => Ok(
                Value::U128(
                    match kind {
                        Bitwise::And => a & b,
                        Bitwise::Or => a | b,
                        Bitwise::Xor => a ^ b,
                    },
                    span,
                ),
            ),
            _ => Err(EvalError { kind: EvalErrorKind::TypeMismatch, span }),
        }
    }

    fn move_bits(self, to_left: bool, amount: u32, span: Span) -> (value: Value)
        requires
            self.integer_type() matches Some(integer_type) && amount < integer_type.bits(),
        ensures
            value == self.moved(to_left, amount, span),
    {
        match self {
            Value::I8(a, _) => Value::I8(
                if to_left { a.wrapping_shl(amount) } else { a.wrapping_shr(amount) },
                span,
            ),
            Value::I16(a, _) => Value::I16(
                if to_left { a.wrapping_shl(amount) } else { a.wrapping_shr(amount) },
                span,
            ),
            Value::I32(a, _) => Value::I32(
                if to_left { a.wrapping_shl(amount) } else { a.wrapping_shr(amount) },
                span,
            ),
            Value::I64(a, _) => Value::I64(
                if to_left { a.wrapping_shl(amount) } else { a.wrapping_shr(amount) },
                span,
            ),
            Value::I128(a, _) => Value::I128(
                if to_left { a.wrapping_shl(amount) } else { a.wrapping_shr(amount) },
                span,
            ),
            Value::U8(a, _) => Value::U8(
                if to_left { a.wrapping_shl(amount) } else { a.wrapping_shr(amount) },
                span,
            ),
            Value::U16(a, _) => Value::U16(
                if to_left { a.wrapping_shl(amount) } else { a.wrapping_shr(amount) },
                span,
            ),
            Value::U32(a, _) => Value::U32(
                if to_left { a.wrapping_shl(amount) } else { a.wrapping_shr(amount) },
                span,
            ),
            Value::U64(a, _) => Value::U64(
                if to_left { a.wrapping_shl(amount) } else { a.wrapping_shr(amount) },
                span,
            ),
            Value::U128(a, _) => Value::U128(
                if to_left { a.wrapping_shl(amount) } else { a.wrapping_shr(amount) },
                span,
            ),
            other => other,
        }
    }

    fn shift(to_left: bool, wrapping: bool, left: Value, right: Value, span: Span) -> (result:
        Result<Value, EvalError>)
        ensures
            result == Value::shifted(to_left, wrapping, left, right, span),
    {
        match (left.to_numeral(), right.to_numeral()) {
            (Some((integer_type, _)), Some((other_type, b))) => {
                if integer_type == other_type {
                    let bits: u128 = integer_type.width() as u128;
                    if wrapping {
                        let low = b.magnitude % bits;
                        let amount = if b.negative && low != 0 { bits - low } else { low };
                        proof {
                            lemma_negative_residue(b.magnitude as int, bits as int);
                        }
                        Ok(left.move_bits(to_left, amount as u32, span))
                    } else if !b.negative && b.magnitude < bits {
                        Ok(left.move_bits(to_left, b.magnitude as u32, span))
                    } else {
                        Err(EvalError { kind: EvalErrorKind::Overflow, span })
                    }
                } else {
                    Err(EvalError { kind: EvalErrorKind::TypeMismatch, span })
                }
            },
            _ => Err(EvalError { kind: EvalErrorKind::TypeMismatch, span }),
        }
    }

    /// The sum, or an error if it is out of range.
    pub fn add(self, other: Value, span: Span) -> (result: Result<Value, EvalError>)
        ensures
            result == Value::checked(Arithmetic::Add, self, other, span),
    {
        Value::check(Arithmetic::Add, self, other, span)
    }

    /// The sum modulo two to the power of the width.
    pub fn add_wrapped(self, other: Value, span: Span) -> (result: Result<Value, EvalError>)
        ensures
            result == Value::wrapped(Arithmetic::Add, self, other, span),
    {
        Value::wrap(Arithmetic::Add, self, other, span)
    }

    /// The difference, or an error if it is out of range.
    pub fn sub(self, other: Value, span: Span) -> (result: Result<Value, EvalError>)
        ensures
            result == Value::checked(Arithmetic::Sub, self, other, span),
    {
        Value::check(Arithmetic::Sub, self, other, span)
    }

    /// The difference modulo two to the power of the width.
    pub fn sub_wrapped(self, other: Value, span: Span) -> (result: Result<Value, EvalError>)
        ensures
            result == Value::wrapped(Arithmetic::Sub, self, other, span),
    {
        Value::wrap(Arithmetic::Sub, self, other, span)
    }

    /// The product, or an error if it is out of range.
    pub fn mul(self, other: Value, span: Span) -> (result: Result<Value, EvalError>)
        ensures
            result == Value::checked(Arithmetic::Mul, self, other, span),
    {
        Value::check(Arithmetic::Mul, self, other, span)
    }

    /// The product modulo two to the power of the width.
    pub fn mul_wrapped(self, other: Value, span: Span) -> (result: Result<Value, EvalError>)
        ensures
            result == Value::wrapped(Arithmetic::Mul, self, other, span),
    {
        Value::wrap(Arithmetic::Mul, self, other, span)
    }

    /// The quotient rounded toward zero, or an error if the divisor is zero
    /// or the quotient is out of range.
    pub fn div(self, other: Value, span: Span) -> (result: Result<Value, EvalError>)
        ensures
            result == Value::checked(Arithmetic::Div, self, other, span),
    {
        Value::check(Arithmetic::Div, self, other, span)
    }

    /// The quotient rounded toward zero and wrapped, or an error if the
    /// divisor is zero.
    pub fn div_wrapped(self, other: Value, span: Span) -> (result: Result<Value, EvalError>)
        ensures
            result == Value::wrapped(Arithmetic::Div, self, other, span),
    {
        Value::wrap(Arithmetic::Div, self, other, span)
    }

    /// The power, or an error if the exponent is negative or the power is
    /// out of range.
    pub fn pow(self, other: Value, span: Span) -> (result: Result<Value, EvalError>)
        ensures
            result == Value::checked(Arithmetic::Pow, self, other, span),
    {
        Value::check(Arithmetic::Pow, self, other, span)
    }

    /// The power modulo two to the power of the width, or an error if the
    /// exponent is negative.
    pub fn pow_wrapped(self, other: Value, span: Span) -> (result: Result<Value, EvalError>)
        ensures
            result == Value::wrapped(Arithmetic::Pow, self, other, span),
    {
        Value::wrap(Arithmetic::Pow, self, other, span)
    }

    /// The left operand moved left by the right one, or an error if the
    /// amount is negative or not less than the width.
    pub fn shl(self, other: Value, span: Span) -> (result: Result<Value, EvalError>)
        ensures
            result == Value::shifted(true, false, self, other, span),
    {
        Value::shift(true, false, self, other, span)
    }

    /// The left operand moved left by the right one modulo the width.
    pub fn shl_wrapped(self, other: Value, span: Span) -> (result: Result<Value, EvalError>)
        ensures
            result == Value::shifted(true, true, self, other, span),
    {
        Value::shift(true, true, self, other, span)
    }

    /// The left operand moved right by the right one, or an error if the
    /// amount is negative or not less than the width.
    pub fn shr(self, other: Value, span: Span) -> (result: Result<Value, EvalError>)
        ensures
            result == Value::shifted(false, false, self, other, span),
    {
        Value::shift(false, false, self, other, span)
    }

    /// The left operand moved right by the right one modulo the width.
    pub fn shr_wrapped(self, other: Value, span: Span) -> (result: Result<Value, EvalError>)
        ensures
            result == Value::shifted(false, true, self, other, span),
    {
        Value::shift(false, true, self, other, span)
    }

    /// The conjunction of two booleans, or of two integers bit by bit.
    pub fn bitand(self, other: Value, span: Span) -> (result: Result<Value, EvalError>)
        ensures
            result == Value::combined(Bitwise::And, self, other, span),
    {
        Value::combine(Bitwise::And, self, other, span)
    }

    /// The disjunction of two booleans, or of two integers bit by bit.
    pub fn bitor(self, other: Value, span: Span) -> (result: Result<Value, EvalError>)
        ensures
            result == Value::combined(Bitwise::Or, self, other, span),
    {
        Value::combine(Bitwise::Or, self, other, span)
    }

    /// The exclusive disjunction of two booleans, or of two integers bit
    /// by bit.
    pub fn xor(self, other: Value, span: Span) -> (result: Result<Value, EvalError>)
        ensures
            result == Value::combined(Bitwise::Xor, self, other, span),
    {
        Value::combine(Bitwise::Xor, self, other, span)
    }

    /// Whether two integers of one type, or two booleans, are equal.
    pub fn eq(self, other: Value, span: Span) -> (result: Result<Value, EvalError>)
        ensures
            result == Value::compared(Comparison::Eq, self, other, span),
    {
        Value::compare(Comparison::Eq, self, other, span)
    }

    /// Whether the left integer is at least the right one.
    pub fn ge(self, other: Value, span: Span) -> (result: Result<Value, EvalError>)
        ensures
            result == Value::compared(Comparison::Ge, self, other, span),
    {
        Value::compare(Comparison::Ge, self, other, span)
    }

    /// Whether the left integer is greater than the right one.
    pub fn gt(self, other: Value, span: Span) -> (result: Result<Value, EvalError>)
        ensures
            result == Value::compared(Comparison::Gt, self, other, span),
    {
        Value::compare(Comparison::Gt, self, other, span)
    }

    /// Whether the left integer is at most the right one.
    pub fn le(self, other: Value, span: Span) -> (result: Result<Value, EvalError>)
        ensures
            result == Value::compared(Comparison::Le, self, other, span),
    {
        Value::compare(Comparison::Le, self, other, span)
    }

    /// Whether the left integer is less than the right one.
    pub fn lt(self, other: Value, span: Span) -> (result: Result<Value, EvalError>)
        ensures
            result == Value::compared(Comparison::Lt, self, other, span),
    {
        Value::compare(Comparison::Lt, self, other, span)
    }

    /// The negation of a signed integer, or an error if it is out of range
    /// or the value is not a signed integer.
    pub fn neg(self, span: Span) -> (result: Result<Value, EvalError>)
        ensures
            result == self.negated(span),
    {
        match self.to_numeral() {
            Some((integer_type, a)) => {
                if integer_type.signed() {
                    match Value::from_numeral(integer_type, crate::arithmetic::negate(a), span) {
                        Some(value) => Ok(value),
                        None => Err(EvalError { kind: EvalErrorKind::Overflow, span }),
                    }
                } else {
                    Err(EvalError { kind: EvalErrorKind::TypeMismatch, span })
                }
            },
            None => Err(EvalError { kind: EvalErrorKind::TypeMismatch, span }),
        }
    }

    /// The logical negation of a boolean, or an integer with every bit
    /// flipped; an error for a value of another kind.
    pub fn not(self, span: Span) -> (result: Result<Value, EvalError>)
        ensures
            result == self.complemented(span),
    {
        match self {
            Value::Boolean(a, _) => Ok(Value::Boolean(!a, span)),
            Value::I8(a, _) => Ok(Value::I8(!a, span)),
            Value::I16(a, _) => Ok(Value::I16(!a, span)),
            Value::I32(a, _) => Ok(Value::I32(!a, span)),
            Value::I64(a, _) => Ok(Value::I64(!a, span)),
            Value::I128(a, _) => Ok(Value::I128(!a, span)),
            Value::U8(a, _) => Ok(Value::U8(!a, span)),
            Value::U16(a, _) => Ok(Value::U16(!a, span)),
            Value::U32(a, _) => Ok(Value::U32(!a, span)),
            Value::U64(a, _) => Ok(Value::U64(!a, span)),
            Value::U128(a, _) => Ok(Value::U128(!a, span)),
            _ => Err(EvalError { kind: EvalErrorKind::TypeMismatch, span }),
        }
    }
}

} // verus!
