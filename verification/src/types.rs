//! The types of the language, and the numerals that integer literals spell.

use vstd::prelude::*;
use crate::span::Symbol;

verus! {

/// The ten integer types: signed and unsigned, 8 to 128 bits wide.
#[derive(Clone, Copy, PartialEq, Eq, Structural, Debug, Hash)]
pub enum IntegerType {
    I8,
    I16,
    I32,
    I64,
    I128,
    U8,
    U16,
    U32,
    U64,
    U128,
}

impl IntegerType {
    /// Whether values of the type may be negative.
    pub open spec fn is_signed(self) -> bool {
        self is I8 || self is I16 || self is I32 || self is I64 || self is I128
    }

    /// The number of bits of a value of the type.
    pub open spec fn bits(self) -> int {
        match self {
            IntegerType::I8 | IntegerType::U8 => 8,
            IntegerType::I16 | IntegerType::U16 => 16,
            IntegerType::I32 | IntegerType::U32 => 32,
            IntegerType::I64 | IntegerType::U64 => 64,
            IntegerType::I128 | IntegerType::U128 => 128,
        }
    }

    /// Two to the power of `bits`: the number of values of the type.
    pub open spec fn modulus(self) -> int {
        match self {
            IntegerType::I8 | IntegerType::U8 => 0x100,
            IntegerType::I16 | IntegerType::U16 => 0x1_0000,
            IntegerType::I32 | IntegerType::U32 => 0x1_0000_0000,
            IntegerType::I64 | IntegerType::U64 => 0x1_0000_0000_0000_0000,
            IntegerType::I128 | IntegerType::U128 => 0x1_0000_0000_0000_0000_0000_0000_0000_0000int,
        }
    }

    /// The least value of the type.
    pub open spec fn min_value(self) -> int {
        if self.is_signed() {
            -(self.modulus() / 2)
        } else {
            0
        }
    }

    /// The greatest value of the type.
    pub open spec fn max_value(self) -> int {
        if self.is_signed() {
            self.modulus() / 2 - 1
        } else {
            self.modulus() - 1
        }
    }

    /// Whether the integer `x` is a value of the type.
    pub open spec fn in_range(self, x: int) -> bool {
        self.min_value() <= x <= self.max_value()
    }

    /// The one value of the type that differs from `x` by a multiple of
    /// `modulus`: what is left of `x` when only `bits` bits are kept.
    pub open spec fn wrap(self, x: int) -> int {
        let low = x % self.modulus();
        if low > self.max_value() {
            low - self.modulus()
        } else {
            low
        }
    }

    /// Whether values of the type may be negative.
    pub fn signed(&self) -> (signed: bool)
        ensures
            signed == self.is_signed(),
    {
        match self {
            IntegerType::I8 | IntegerType::I16 | IntegerType::I32 | IntegerType::I64
            | IntegerType::I128 => true,
            _ => false,
        }
    }

    /// The number of bits of a value of the type.
    pub fn width(&self) -> (width: u32)
        ensures
            width == self.bits(),
    {
        match self {
            IntegerType::I8 | IntegerType::U8 => 8,
            IntegerType::I16 | IntegerType::U16 => 16,
            IntegerType::I32 | IntegerType::U32 => 32,
            IntegerType::I64 | IntegerType::U64 => 64,
            IntegerType::I128 | IntegerType::U128 => 128,
        }
    }
}

/// What an integer literal spells: a sign and a magnitude.
#[derive(Clone, Copy, PartialEq, Eq, Structural, Debug, Hash)]
pub struct Numeral {
    /// Whether the spelling starts with a minus sign.
    pub negative: bool,
    /// The number that the digits spell.
    pub magnitude: u128,
}

impl Numeral {
    /// The integer that the numeral denotes.
    pub open spec fn value(self) -> int {
        if self.negative {
            -(self.magnitude as int)
        } else {
            self.magnitude as int
        }
    }

    /// The numeral that spells the integer `x`, whose magnitude is below
    /// two to the power of 128. Zero has no sign.
    pub open spec fn of_int(x: int) -> Numeral {
        if x < 0 {
            Numeral { negative: true, magnitude: (-x) as u128 }
        } else {
            Numeral { negative: false, magnitude: x as u128 }
        }
    }

    /// The numeral of the natural number `magnitude`.
    pub fn natural(magnitude: u128) -> (numeral: Numeral)
        ensures
            numeral == Numeral::of_int(magnitude as int),
            numeral.value() == magnitude,
    {
        Numeral { negative: false, magnitude }
    }

    /// The numeral of the integer `value`.
    pub fn integer(value: i128) -> (numeral: Numeral)
        ensures
            numeral == Numeral::of_int(value as int),
            numeral.value() == value,
    {
        if value < 0 {
            // The magnitude of `i128::MIN` exceeds `i128::MAX`: negate in `u128`.
            let below: u128 = (-(value + 1)) as u128;
            Numeral { negative: true, magnitude: below + 1 }
        } else {
            Numeral { negative: false, magnitude: value as u128 }
        }
    }
}

/// A type that a declaration or a literal can have.
#[derive(Clone, Copy, PartialEq, Eq, Structural, Debug, Hash)]
pub enum Type {
    /// An account address.
    Address,
    /// `true` or `false`.
    Boolean,
    /// An element of the base field.
    Field,
    /// A point of the curve group.
    Group,
    /// One of the integer types.
    Integer(IntegerType),
    /// An element of the scalar field.
    Scalar,
    /// A string.
    String,
    /// A struct, by its name.
    Identifier(Symbol),
}

/// How a function takes a parameter.
#[derive(Clone, Copy, PartialEq, Eq, Structural, Debug, Hash)]
pub enum ParamMode {
    /// A compile-time constant; it cannot be assigned to.
    Const,
    /// A constant input of the program.
    Constant,
    Public,
    Private,
}

} // verus!
