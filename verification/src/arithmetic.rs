//! Arithmetic on numerals: a sign and a magnitude of up to 128 bits.
//!
//! The functions here compute the exact result of an operation where its
//! magnitude stays below two to the power of 128, and otherwise a numeral
//! that differs from the exact result by a multiple of that power. Either
//! is enough to tell what the result is in any of the integer types.

use vstd::prelude::*;
use vstd::arithmetic::power::{
    lemma_pow0,
    lemma_pow1,
    lemma_pow_adds,
    lemma_pow_increases,
    lemma_pow_mod_noop,
    lemma_pow_multiplies,
    pow,
};
use vstd::arithmetic::div_mod::{
    lemma_fundamental_div_mod,
    lemma_mod_multiples_vanish,
    lemma_mul_mod_noop_general,
};
use crate::types::{IntegerType, Numeral};
use crate::value::{exact, quotient, Arithmetic};

verus! {

/// Two to the power of 128.
pub open spec fn limit() -> int {
    0x1_0000_0000_0000_0000_0000_0000_0000_0000int
}

/// Whether `x` and `y` differ by a multiple of `limit`.
pub open spec fn congruent(x: int, y: int) -> bool {
    (x - y) % limit() == 0
}

/// Integers that differ by a multiple of `limit` wrap to the same value in
/// every integer type.
pub proof fn lemma_wrap_congruent(integer_type: IntegerType, x: int, y: int)
    requires
        congruent(x, y),
    ensures
        integer_type.wrap(x) == integer_type.wrap(y),
{
    let k = (x - y) / limit();
    assert(x - y == limit() * k);
    let m = integer_type.modulus();
    let c = limit() / m;
    assert(limit() == m * c);
    assert(x == m * (c * k) + y) by (nonlinear_arith)
        requires
            x - y == limit() * k,
            limit() == m * c,
    ;
    lemma_mod_multiples_vanish(c * k, y, m);
}

/// The product of two integers with the signs taken out.
pub proof fn lemma_signed_product(a: Numeral, b: Numeral)
    ensures
        a.value() * b.value() == (if a.negative != b.negative {
            -(a.magnitude * b.magnitude)
        } else {
            a.magnitude * b.magnitude
        }),
{
    let p = a.magnitude as int;
    let q = b.magnitude as int;
    assert((-p) * q == -(p * q)) by (nonlinear_arith);
    assert(p * (-q) == -(p * q)) by (nonlinear_arith);
    assert((-p) * (-q) == p * q) by (nonlinear_arith);
}

/// A power of a negative base is the power of its magnitude, negated when
/// the exponent is odd.
pub proof fn lemma_signed_power(m: int, e: nat)
    ensures
        pow(-m, e) == (if e % 2 == 1 {
            -pow(m, e)
        } else {
            pow(m, e)
        }),
    decreases e,
{
    reveal(pow);
    if e > 0 {
        lemma_signed_power(m, (e - 1) as nat);
        let p = pow(m, (e - 1) as nat);
        assert((-m) * p == -(m * p)) by (nonlinear_arith);
        assert((-m) * (-p) == m * p) by (nonlinear_arith);
    }
}

/// The numeral with the opposite sign.
pub(crate) fn negate(a: Numeral) -> (n: Numeral)
    ensures
        n.value() == -a.value(),
        n.magnitude == a.magnitude,
{
    Numeral { negative: !a.negative, magnitude: a.magnitude }
}

/// The sum, if its magnitude is below `limit`.
pub(crate) fn exact_sum(a: Numeral, b: Numeral) -> (sum: Option<Numeral>)
    ensures
        sum matches Some(n) ==> n.value() == a.value() + b.value(),
        sum is None ==> !(-limit() < a.value() + b.value() < limit()),
{
    if a.negative == b.negative {
        match a.magnitude.checked_add(b.magnitude) {
            Some(magnitude) => Some(Numeral { negative: a.negative, magnitude }),
            None => None,
        }
    } else if a.magnitude >= b.magnitude {
        Some(Numeral { negative: a.negative, magnitude: a.magnitude - b.magnitude })
    } else {
        Some(Numeral { negative: b.negative, magnitude: b.magnitude - a.magnitude })
    }
}

/// A numeral congruent to the sum.
pub(crate) fn residue_sum(a: Numeral, b: Numeral) -> (n: Numeral)
    ensures
        congruent(n.value(), a.value() + b.value()),
{
    if a.negative == b.negative {
        Numeral { negative: a.negative, magnitude: a.magnitude.wrapping_add(b.magnitude) }
    } else if a.magnitude >= b.magnitude {
        Numeral { negative: a.negative, magnitude: a.magnitude - b.magnitude }
    } else {
        Numeral { negative: b.negative, magnitude: b.magnitude - a.magnitude }
    }
}

/// The product, if its magnitude is below `limit`.
pub(crate) fn exact_product(a: Numeral, b: Numeral) -> (product: Option<Numeral>)
    ensures
        product matches Some(n) ==> n.value() == a.value() * b.value(),
        product is None ==> !(-limit() < a.value() * b.value() < limit()),
{
    proof {
        lemma_signed_product(a, b);
    }
    match a.magnitude.checked_mul(b.magnitude) {
        Some(magnitude) => Some(Numeral { negative: a.negative != b.negative, magnitude }),
        None => None,
    }
}

/// A numeral congruent to the product.
pub(crate) fn residue_product(a: Numeral, b: Numeral) -> (n: Numeral)
    ensures
        congruent(n.value(), a.value() * b.value()),
{
    proof {
        lemma_signed_product(a, b);
        lemma_fundamental_div_mod(a.magnitude * b.magnitude, limit());
    }
    Numeral {
        negative: a.negative != b.negative,
        magnitude: a.magnitude.wrapping_mul(b.magnitude),
    }
}

/// The quotient rounded toward zero. The divisor is not zero.
pub(crate) fn exact_quotient(a: Numeral, b: Numeral) -> (n: Numeral)
    requires
        b.magnitude != 0,
    ensures
        n.value() == quotient(a.value(), b.value()),
{
    Numeral { negative: a.negative != b.negative, magnitude: a.magnitude / b.magnitude }
}

/// The power of two magnitudes, if it is below `limit`.
pub(crate) fn exact_power_of_magnitude(base: u128, exponent: u128) -> (power: Option<u128>)
    ensures
        power matches Some(p) ==> p == pow(base as int, exponent as nat),
        power is None ==> pow(base as int, exponent as nat) >= limit(),
{
    if exponent == 0 {
        proof {
            lemma_pow0(base as int);
        }
        return Some(1);
    }
    if base <= 1 {
        proof {
            lemma_power_of_small(base as int, exponent as nat);
        }
        return Some(base);
    }
    let mut power: u128 = 1;
    let mut done: u128 = 0;
    proof {
        lemma_pow0(base as int);
    }
    while done < exponent
        invariant
            base >= 2,
            done <= exponent,
            power == pow(base as int, done as nat),
            power >= 1,
        decreases exponent - done,
    {
        proof {
            lemma_pow_adds(base as int, done as nat, 1);
            lemma_pow1(base as int);
            lemma_pow_increases(base as nat, (done + 1) as nat, exponent as nat);
        }
        match power.checked_mul(base) {
            Some(next) => {
                proof {
                    assert(next > power) by (nonlinear_arith)
                        requires
                            next == power * base,
                            power >= 1,
                            base >= 2,
                    ;
                }
                power = next;
            },
            None => {
                return None;
            },
        }
        done = done + 1;
    }
    Some(power)
}

/// The powers of zero and one.
pub proof fn lemma_power_of_small(base: int, exponent: nat)
    requires
        0 <= base <= 1,
        exponent > 0,
    ensures
        pow(base, exponent) == base,
    decreases exponent,
{
    reveal(pow);
    if exponent > 1 {
        lemma_power_of_small(base, (exponent - 1) as nat);
        assert(base * base == base) by (nonlinear_arith)
            requires
                0 <= base <= 1,
        ;
    } else {
        lemma_pow0(base);
        assert(base * 1 == base);
    }
}

/// The power of two magnitudes, reduced modulo `limit`.
pub(crate) fn residue_power_of_magnitude(base: u128, exponent: u128) -> (power: u128)
    ensures
        power == pow(base as int, exponent as nat) % limit(),
{
    let mut result: u128 = 1;
    let mut square: u128 = base;
    let mut left: u128 = exponent;
    proof {
        assert(1 * pow(base as int, exponent as nat) == pow(base as int, exponent as nat));
    }
    while left > 0
        invariant
            (result * pow(square as int, left as nat)) % limit() == pow(
                base as int,
                exponent as nat,
            ) % limit(),
        decreases left,
    {
        proof {
            lemma_power_step(result as int, square as int, left as nat);
        }
        if left % 2 == 1 {
            result = result.wrapping_mul(square);
        }
        square = square.wrapping_mul(square);
        left = left / 2;
    }
    proof {
        lemma_pow0(square as int);
        assert(result * pow(square as int, 0) == result) by (nonlinear_arith)
            requires
                pow(square as int, 0) == 1,
        ;
    }
    result
}

/// One step of the square-and-multiply loop keeps the residue of the
/// product of what is done and what is left.
pub proof fn lemma_power_step(result: int, square: int, left: nat)
    requires
        left > 0,
        result >= 0,
        square >= 0,
    ensures
        ({
            let next_result = if left % 2 == 1 {
                (result * square) % limit()
            } else {
                result
            };
            let next_square = (square * square) % limit();
            (next_result * pow(next_square, left / 2)) % limit() == (result * pow(square, left))
                % limit()
        }),
{
    let l = limit();
    let half = left / 2;
    let next_square = (square * square) % l;
    // pow(square, 2 * half) == pow(square * square, half)
    lemma_pow_multiplies(square, 2, half);
    assert(pow(square, 2) == square * square) by {
        reveal_with_fuel(pow, 3);
        assert(square * (square * 1) == square * square) by (nonlinear_arith);
    }
    let big = pow(square * square, half);
    assert(pow(square, 2 * half) == big);
    // pow(next_square, half) % l == big % l
    lemma_pow_mod_noop(square * square, half, l);
    let small = pow(next_square, half);
    assert(small % l == big % l);
    if left % 2 == 1 {
        assert(left == 2 * half + 1);
        lemma_pow_adds(square, 1, 2 * half);
        lemma_pow1(square);
        assert(pow(square, left) == square * big);
        let next_result = (result * square) % l;
        // (next_result * small) % l == ((result * square) * big) % l
        lemma_mul_mod_noop_general(result * square, small, l);
        lemma_mul_mod_noop_general(result * square, big, l);
        assert((next_result * small) % l == ((result * square) * big) % l);
        assert((result * square) * big == result * (square * big)) by (nonlinear_arith);
    } else {
        assert(left == 2 * half);
        lemma_mul_mod_noop_general(result, small, l);
        lemma_mul_mod_noop_general(result, big, l);
    }
}

/// Whether the exponent makes a power of a negative base negative.
pub(crate) fn odd(exponent: u128) -> (odd: bool)
    ensures
        odd == (exponent % 2 == 1),
{
    exponent % 2 == 1
}

/// The power, if its magnitude is below `limit`. The exponent is not
/// negative.
pub(crate) fn exact_power(a: Numeral, b: Numeral) -> (power: Option<Numeral>)
    requires
        b.value() >= 0,
    ensures
        power matches Some(n) ==> n.value() == pow(a.value(), b.value() as nat),
        power is None ==> !(-limit() < pow(a.value(), b.value() as nat) < limit()),
{
    proof {
        lemma_signed_power(a.magnitude as int, b.magnitude as nat);
    }
    let exponent = if b.negative { 0 } else { b.magnitude };
    match exact_power_of_magnitude(a.magnitude, exponent) {
        Some(magnitude) => Some(Numeral { negative: a.negative && odd(exponent), magnitude }),
        None => None,
    }
}

/// A numeral congruent to the power. The exponent is not negative.
pub(crate) fn residue_power(a: Numeral, b: Numeral) -> (n: Numeral)
    requires
        b.value() >= 0,
    ensures
        congruent(n.value(), pow(a.value(), b.value() as nat)),
{
    proof {
        lemma_signed_power(a.magnitude as int, b.magnitude as nat);
        lemma_fundamental_div_mod(pow(a.magnitude as int, b.value() as nat), limit());
    }
    let exponent = if b.negative { 0 } else { b.magnitude };
    Numeral {
        negative: a.negative && odd(exponent),
        magnitude: residue_power_of_magnitude(a.magnitude, exponent),
    }
}

/// The exact result of `op`, if there is one and its magnitude is below
/// `limit`; otherwise why not.
pub(crate) fn exact_result(op: Arithmetic, a: Numeral, b: Numeral) -> (result: Result<
    Numeral,
    crate::value::EvalErrorKind,
>)
    ensures
        match (result, exact(op, a.value(), b.value())) {
            (Ok(n), Ok(x)) => n.value() == x,
            (Err(kind), Ok(x)) => kind == crate::value::EvalErrorKind::Overflow && !(-limit() < x
                < limit()),
            (Err(kind), Err(expected)) => kind == expected,
            (Ok(_), Err(_)) => false,
        },
{
    let found = match op {
        Arithmetic::Add => exact_sum(a, b),
        Arithmetic::Sub => exact_sum(a, negate(b)),
        Arithmetic::Mul => exact_product(a, b),
        Arithmetic::Div => {
            if b.magnitude == 0 {
                return Err(crate::value::EvalErrorKind::DivisionByZero);
            }
            Some(exact_quotient(a, b))
        },
        Arithmetic::Pow => {
            if b.negative && b.magnitude != 0 {
                return Err(crate::value::EvalErrorKind::Overflow);
            }
            exact_power(a, b)
        },
    };
    match found {
        Some(n) => Ok(n),
        None => Err(crate::value::EvalErrorKind::Overflow),
    }
}

/// A numeral congruent to the exact result of `op`, if there is an exact
/// result; otherwise why not.
pub(crate) fn residue_result(op: Arithmetic, a: Numeral, b: Numeral) -> (result: Result<
    Numeral,
    crate::value::EvalErrorKind,
>)
    ensures
        match (result, exact(op, a.value(), b.value())) {
            (Ok(n), Ok(x)) => congruent(n.value(), x),
            (Err(kind), Err(expected)) => kind == expected,
            _ => false,
        },
{
    match op {
        Arithmetic::Add => Ok(residue_sum(a, b)),
        Arithmetic::Sub => Ok(residue_sum(a, negate(b))),
        Arithmetic::Mul => Ok(residue_product(a, b)),
        Arithmetic::Div => {
            if b.magnitude == 0 {
                Err(crate::value::EvalErrorKind::DivisionByZero)
            } else {
                Ok(exact_quotient(a, b))
            }
        },
        Arithmetic::Pow => {
            if b.negative && b.magnitude != 0 {
                Err(crate::value::EvalErrorKind::Overflow)
            } else {
                Ok(residue_power(a, b))
            }
        },
    }
}

} // verus!
