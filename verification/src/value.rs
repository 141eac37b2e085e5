//! Compile-time constants and the arithmetic on them.
//!
//! Every operation is stated over the mathematical integers: the exact
//! result is computed first, and then either checked against the range of
//! the operand type or wrapped into it.

use vstd::prelude::*;
use vstd::arithmetic::power::pow;
use crate::span::{Span, Symbol};
use crate::types::{IntegerType, Numeral};

verus! {

/// Why a constant operation has no result.
#[derive(Clone, Copy, PartialEq, Eq, Structural, Debug, Hash)]
pub enum EvalErrorKind {
    /// The result is not a value of the operand type. This covers a sum,
    /// product, quotient or power out of range, a literal that does not fit
    /// its type, a shift by less than zero or by the width or more, and a
    /// negative exponent.
    Overflow,
    /// The divisor is zero.
    DivisionByZero,
    /// The operands are not of one kind, or the operation is not defined on
    /// their kind.
    TypeMismatch,
}

/// A failed constant operation, with the place of the operation.
#[derive(Clone, Copy, PartialEq, Eq, Structural, Debug, Hash)]
pub struct EvalError {
    pub kind: EvalErrorKind,
    pub span: Span,
}

/// The five arithmetic operations. Each comes checked and wrapped.
#[derive(Clone, Copy, PartialEq, Eq, Structural, Debug, Hash)]
pub enum Arithmetic {
    Add,
    Sub,
    Mul,
    Div,
    Pow,
}

/// The three operations on the bits of two operands.
#[derive(Clone, Copy, PartialEq, Eq, Structural, Debug, Hash)]
pub enum Bitwise {
    And,
    Or,
    Xor,
}

/// The five comparisons.
#[derive(Clone, Copy, PartialEq, Eq, Structural, Debug, Hash)]
pub enum Comparison {
    Eq,
    Ge,
    Gt,
    Le,
    Lt,
}

/// A constant known at compile time, with the place it came from.
#[derive(Clone, Copy, PartialEq, Eq, Structural, Debug, Hash)]
pub enum Value {
    Address(Symbol, Span),
    Boolean(bool, Span),
    Field(Symbol, Span),
    Group(Symbol, Span),
    I8(i8, Span),
    I16(i16, Span),
    I32(i32, Span),
    I64(i64, Span),
    I128(i128, Span),
    U8(u8, Span),
    U16(u16, Span),
    U32(u32, Span),
    U64(u64, Span),
    U128(u128, Span),
    Scalar(Symbol, Span),
    String(Symbol, Span),
}

/// The quotient of `a` by `b` rounded toward zero. `b` is not zero.
pub open spec fn quotient(a: int, b: int) -> int {
    let magnitude = (if a < 0 { -a } else { a }) / (if b < 0 { -b } else { b });
    if (a < 0) != (b < 0) {
        -magnitude
    } else {
        magnitude
    }
}

/// The exact result of an arithmetic operation on the integers `a` and
/// `b`, or why there is none.
pub open spec fn exact(op: Arithmetic, a: int, b: int) -> Result<int, EvalErrorKind> {
    match op {
        Arithmetic::Add => Ok(a + b),
        Arithmetic::Sub => Ok(a - b),
        Arithmetic::Mul => Ok(a * b),
        Arithmetic::Div => if b == 0 {
            Err(EvalErrorKind::DivisionByZero)
        } else {
            Ok(quotient(a, b))
        },
        Arithmetic::Pow => if b < 0 {
            Err(EvalErrorKind::Overflow)
        } else {
            Ok(pow(a, b as nat))
        },
    }
}

/// What a comparison says of the integers `a` and `b`.
pub open spec fn holds(comparison: Comparison, a: int, b: int) -> bool {
    match comparison {
        Comparison::Eq => a == b,
        Comparison::Ge => a >= b,
        Comparison::Gt => a > b,
        Comparison::Le => a <= b,
        Comparison::Lt => a < b,
    }
}

impl Value {
    /// The integer type of the value, if it is an integer.
    pub open spec fn integer_type(self) -> Option<IntegerType> {
        match self {
            Value::I8(_, _) => Some(IntegerType::I8),
            Value::I16(_, _) => Some(IntegerType::I16),
            Value::I32(_, _) => Some(IntegerType::I32),
            Value::I64(_, _) => Some(IntegerType::I64),
            Value::I128(_, _) => Some(IntegerType::I128),
            Value::U8(_, _) => Some(IntegerType::U8),
            Value::U16(_, _) => Some(IntegerType::U16),
            Value::U32(_, _) => Some(IntegerType::U32),
            Value::U64(_, _) => Some(IntegerType::U64),
            Value::U128(_, _) => Some(IntegerType::U128),
            _ => None,
        }
    }

    /// The integer that the value holds. Zero for a value of another kind.
    pub open spec fn as_int(self) -> int {
        match self {
            Value::I8(x, _) => x as int,
            Value::I16(x, _) => x as int,
            Value::I32(x, _) => x as int,
            Value::I64(x, _) => x as int,
            Value::I128(x, _) => x as int,
            Value::U8(x, _) => x as int,
            Value::U16(x, _) => x as int,
            Value::U32(x, _) => x as int,
            Value::U64(x, _) => x as int,
            Value::U128(x, _) => x as int,
            _ => 0,
        }
    }

    /// The value of type `integer_type` that holds `x`, which is in range.
    pub open spec fn integer(integer_type: IntegerType, x: int, span: Span) -> Value {
        match integer_type {
            IntegerType::I8 => Value::I8(x as i8, span),
            IntegerType::I16 => Value::I16(x as i16, span),
            IntegerType::I32 => Value::I32(x as i32, span),
            IntegerType::I64 => Value::I64(x as i64, span),
            IntegerType::I128 => Value::I128(x as i128, span),
            IntegerType::U8 => Value::U8(x as u8, span),
            IntegerType::U16 => Value::U16(x as u16, span),
            IntegerType::U32 => Value::U32(x as u32, span),
            IntegerType::U64 => Value::U64(x as u64, span),
            IntegerType::U128 => Value::U128(x as u128, span),
        }
    }

    /// Whether both values are integers of one type.
    pub open spec fn same_integer_type(self, other: Value) -> bool {
        self.integer_type() is Some && self.integer_type() == other.integer_type()
    }

    /// Whether the value is of a kind that may be folded: a boolean or an
    /// integer. Addresses, field elements, group points, scalars and
    /// strings are carried but never computed with.
    pub open spec fn foldable(self) -> bool {
        self is Boolean || self.integer_type() is Some
    }

    /// The checked form of `op`: the exact result if it is a value of the
    /// operands' type, and an error otherwise.
    pub open spec fn checked(op: Arithmetic, left: Value, right: Value, span: Span) -> Result<
        Value,
        EvalError,
    > {
        if left.same_integer_type(right) {
            let integer_type = left.integer_type()->0;
            match exact(op, left.as_int(), right.as_int()) {
                Ok(x) => if integer_type.in_range(x) {
                    Ok(Value::integer(integer_type, x, span))
                } else {
                    Err(EvalError { kind: EvalErrorKind::Overflow, span })
                },
                Err(kind) => Err(EvalError { kind, span }),
            }
        } else {
            Err(EvalError { kind: EvalErrorKind::TypeMismatch, span })
        }
    }

    /// The wrapped form of `op`: the exact result reduced to the width of
    /// the operands' type. It fails only where there is no exact result.
    pub open spec fn wrapped(op: Arithmetic, left: Value, right: Value, span: Span) -> Result<
        Value,
        EvalError,
    > {
        if left.same_integer_type(right) {
            let integer_type = left.integer_type()->0;
            match exact(op, left.as_int(), right.as_int()) {
                Ok(x) => Ok(Value::integer(integer_type, integer_type.wrap(x), span)),
                Err(kind) => Err(EvalError { kind, span }),
            }
        } else {
            Err(EvalError { kind: EvalErrorKind::TypeMismatch, span })
        }
    }

    /// A comparison of two integers of one type, or of two booleans for
    /// equality. Values of other kinds are not compared.
    pub open spec fn compared(
        comparison: Comparison,
        left: Value,
        right: Value,
        span: Span,
    ) -> Result<Value, EvalError> {
        if left.same_integer_type(right) {
            Ok(Value::Boolean(holds(comparison, left.as_int(), right.as_int()), span))
        } else {
            match (comparison, left, right) {
                (Comparison::Eq, Value::Boolean(a, _), Value::Boolean(b, _)) => Ok(
                    Value::Boolean(a == b, span),
                ),
                _ => Err(EvalError { kind: EvalErrorKind::TypeMismatch, span }),
            }
        }
    }

    /// The negation of a signed integer, checked. Unsigned integers and
    /// values of other kinds are not negated.
    pub open spec fn negated(self, span: Span) -> Result<Value, EvalError> {
        match self.integer_type() {
            Some(integer_type) if integer_type.is_signed() => if integer_type.in_range(
                -self.as_int(),
            ) {
                Ok(Value::integer(integer_type, -self.as_int(), span))
            } else {
                Err(EvalError { kind: EvalErrorKind::Overflow, span })
            },
            _ => Err(EvalError { kind: EvalErrorKind::TypeMismatch, span }),
        }
    }

    /// The value of an integer literal: the numeral as a value of the
    /// type, if it fits.
    pub open spec fn of_numeral(integer_type: IntegerType, numeral: Numeral, span: Span) -> Option<
        Value,
    > {
        if integer_type.in_range(numeral.value()) {
            Some(Value::integer(integer_type, numeral.value(), span))
        } else {
            None
        }
    }

    /// The value of an integer literal: the numeral as a value of the
    /// type, or `None` if it does not fit.
    pub fn from_numeral(integer_type: IntegerType, numeral: Numeral, span: Span) -> (value: Option<
        Value,
    >)
        ensures
            value == Value::of_numeral(integer_type, numeral, span),
    {
        let m = numeral.magnitude;
        if numeral.negative && m != 0 {
            match integer_type {
                IntegerType::I8 => if m <= 0x80 {
                    Some(Value::I8((-(m as i128)) as i8, span))
                } else {
                    None
                },
                IntegerType::I16 => if m <= 0x8000 {
                    Some(Value::I16((-(m as i128)) as i16, span))
                } else {
                    None
                },
                IntegerType::I32 => if m <= 0x8000_0000 {
                    Some(Value::I32((-(m as i128)) as i32, span))
                } else {
                    None
                },
                IntegerType::I64 => if m <= 0x8000_0000_0000_0000 {
                    Some(Value::I64((-(m as i128)) as i64, span))
                } else {
                    None
                },
                IntegerType::I128 => if m < 0x8000_0000_0000_0000_0000_0000_0000_0000 {
                    Some(Value::I128(-(m as i128), span))
                } else if m == 0x8000_0000_0000_0000_0000_0000_0000_0000 {
                    Some(Value::I128(i128::MIN, span))
                } else {
                    None
                },
                _ => None,
            }
        } else {
            match integer_type {
                IntegerType::I8 => if m <= 0x7f {
                    Some(Value::I8(m as i8, span))
                } else {
                    None
                },
                IntegerType::I16 => if m <= 0x7fff {
                    Some(Value::I16(m as i16, span))
                } else {
                    None
                },
                IntegerType::I32 => if m <= 0x7fff_ffff {
                    Some(Value::I32(m as i32, span))
                } else {
                    None
                },
                IntegerType::I64 => if m <= 0x7fff_ffff_ffff_ffff {
                    Some(Value::I64(m as i64, span))
                } else {
                    None
                },
                IntegerType::I128 => if m <= 0x7fff_ffff_ffff_ffff_ffff_ffff_ffff_ffff {
                    Some(Value::I128(m as i128, span))
                } else {
                    None
                },
                IntegerType::U8 => if m <= 0xff {
                    Some(Value::U8(m as u8, span))
                } else {
                    None
                },
                IntegerType::U16 => if m <= 0xffff {
                    Some(Value::U16(m as u16, span))
                } else {
                    None
                },
                IntegerType::U32 => if m <= 0xffff_ffff {
                    Some(Value::U32(m as u32, span))
                } else {
                    None
                },
                IntegerType::U64 => if m <= 0xffff_ffff_ffff_ffff {
                    Some(Value::U64(m as u64, span))
                } else {
                    None
                },
                IntegerType::U128 => Some(Value::U128(m, span)),
            }
        }
    }

    /// The type and the numeral of an integer value; `None` for a value of
    /// another kind.
    pub fn to_numeral(&self) -> (parts: Option<(IntegerType, Numeral)>)
        ensures
            parts == match self.integer_type() {
                Some(integer_type) => Some((integer_type, Numeral::of_int(self.as_int()))),
                None => None,
            },
    {
        match self {
            Value::I8(x, _) => Some((IntegerType::I8, Numeral::integer(*x as i128))),
            Value::I16(x, _) => Some((IntegerType::I16, Numeral::integer(*x as i128))),
            Value::I32(x, _) => Some((IntegerType::I32, Numeral::integer(*x as i128))),
            Value::I64(x, _) => Some((IntegerType::I64, Numeral::integer(*x as i128))),
            Value::I128(x, _) => Some((IntegerType::I128, Numeral::integer(*x))),
            Value::U8(x, _) => Some((IntegerType::U8, Numeral::natural(*x as u128))),
            Value::U16(x, _) => Some((IntegerType::U16, Numeral::natural(*x as u128))),
            Value::U32(x, _) => Some((IntegerType::U32, Numeral::natural(*x as u128))),
            Value::U64(x, _) => Some((IntegerType::U64, Numeral::natural(*x as u128))),
            Value::U128(x, _) => Some((IntegerType::U128, Numeral::natural(*x))),
            _ => None,
        }
    }

    /// Tells whether the value is `foldable`.
    pub fn is_supported_const_fold_type(&self) -> (supported: bool)
        ensures
            supported == self.foldable(),
    {
        match self {
            Value::Address(_, _) | Value::Field(_, _) | Value::Group(_, _) | Value::Scalar(_, _)
            | Value::String(_, _) => false,
            _ => true,
        }
    }
}

} // verus!
