use leo_passes::value::{EvalError, EvalErrorKind, Value};
use leo_passes::{IntegerType, Numeral, Span, Symbol};

fn at() -> Span {
    Span::new(10, 20)
}

fn here() -> Span {
    Span::new(1, 2)
}

fn overflow() -> Result<Value, EvalError> {
    Err(EvalError { kind: EvalErrorKind::Overflow, span: at() })
}

fn mismatch() -> Result<Value, EvalError> {
    Err(EvalError { kind: EvalErrorKind::TypeMismatch, span: at() })
}

fn division_by_zero() -> Result<Value, EvalError> {
    Err(EvalError { kind: EvalErrorKind::DivisionByZero, span: at() })
}

#[test]
fn add_gives_the_sum_at_the_place_of_the_operation() {
    let sum = Value::U8(2, here()).add(Value::U8(3, here()), at());
    assert_eq!(sum, Ok(Value::U8(5, at())));
}

#[test]
fn add_fails_on_overflow() {
    assert_eq!(Value::U8(255, here()).add(Value::U8(1, here()), at()), overflow());
    assert_eq!(Value::I8(127, here()).add(Value::I8(1, here()), at()), overflow());
    assert_eq!(Value::I8(-128, here()).add(Value::I8(-1, here()), at()), overflow());
    assert_eq!(Value::U128(u128::MAX, here()).add(Value::U128(1, here()), at()), overflow());
    assert_eq!(Value::I128(i128::MIN, here()).add(Value::I128(-1, here()), at()), overflow());
}

#[test]
fn add_reaches_the_bounds() {
    assert_eq!(Value::U8(254, here()).add(Value::U8(1, here()), at()), Ok(Value::U8(255, at())));
    assert_eq!(
        Value::I8(-127, here()).add(Value::I8(-1, here()), at()),
        Ok(Value::I8(-128, at()))
    );
    assert_eq!(
        Value::I128(i128::MIN, here()).add(Value::I128(i128::MAX, here()), at()),
        Ok(Value::I128(-1, at()))
    );
    assert_eq!(
        Value::U128(u128::MAX - 1, here()).add(Value::U128(1, here()), at()),
        Ok(Value::U128(u128::MAX, at()))
    );
}

#[test]
fn add_wrapped_wraps_modulo_the_width() {
    assert_eq!(
        Value::U8(255, here()).add_wrapped(Value::U8(1, here()), at()),
        Ok(Value::U8(0, at()))
    );
    assert_eq!(
        Value::I8(127, here()).add_wrapped(Value::I8(1, here()), at()),
        Ok(Value::I8(-128, at()))
    );
    assert_eq!(
        Value::U16(65535, here()).add_wrapped(Value::U16(2, here()), at()),
        Ok(Value::U16(1, at()))
    );
    assert_eq!(
        Value::U128(u128::MAX, here()).add_wrapped(Value::U128(5, here()), at()),
        Ok(Value::U128(4, at()))
    );
    assert_eq!(
        Value::I128(i128::MAX, here()).add_wrapped(Value::I128(1, here()), at()),
        Ok(Value::I128(i128::MIN, at()))
    );
    assert_eq!(
        Value::I64(i64::MIN, here()).add_wrapped(Value::I64(-1, here()), at()),
        Ok(Value::I64(i64::MAX, at()))
    );
}

#[test]
fn sub_checked_and_wrapped() {
    assert_eq!(Value::U8(5, here()).sub(Value::U8(3, here()), at()), Ok(Value::U8(2, at())));
    assert_eq!(Value::U8(3, here()).sub(Value::U8(5, here()), at()), overflow());
    assert_eq!(
        Value::U8(0, here()).sub_wrapped(Value::U8(1, here()), at()),
        Ok(Value::U8(255, at()))
    );
    assert_eq!(
        Value::I8(-128, here()).sub_wrapped(Value::I8(1, here()), at()),
        Ok(Value::I8(127, at()))
    );
    assert_eq!(Value::I8(-128, here()).sub(Value::I8(1, here()), at()), overflow());
    assert_eq!(
        Value::I32(-5, here()).sub(Value::I32(-7, here()), at()),
        Ok(Value::I32(2, at()))
    );
    assert_eq!(
        Value::U128(0, here()).sub_wrapped(Value::U128(1, here()), at()),
        Ok(Value::U128(u128::MAX, at()))
    );
}

#[test]
fn mul_checked_and_wrapped() {
    assert_eq!(Value::U8(15, here()).mul(Value::U8(17, here()), at()), Ok(Value::U8(255, at())));
    assert_eq!(Value::U8(16, here()).mul(Value::U8(16, here()), at()), overflow());
    assert_eq!(
        Value::U8(16, here()).mul_wrapped(Value::U8(17, here()), at()),
        Ok(Value::U8(16, at()))
    );
    assert_eq!(Value::I8(-8, here()).mul(Value::I8(16, here()), at()), Ok(Value::I8(-128, at())));
    assert_eq!(Value::I8(8, here()).mul(Value::I8(16, here()), at()), overflow());
    assert_eq!(
        Value::I8(-3, here()).mul_wrapped(Value::I8(100, here()), at()),
        Ok(Value::I8((-300i32) as i8, at()))
    );
    assert_eq!(
        Value::U128(u128::MAX, here()).mul(Value::U128(2, here()), at()),
        overflow()
    );
    assert_eq!(
        Value::U128(u128::MAX, here()).mul_wrapped(Value::U128(u128::MAX, here()), at()),
        Ok(Value::U128(1, at()))
    );
    assert_eq!(
        Value::I128(i128::MIN, here()).mul_wrapped(Value::I128(-1, here()), at()),
        Ok(Value::I128(i128::MIN, at()))
    );
    assert_eq!(
        Value::I128(i128::MAX, here()).mul_wrapped(Value::I128(3, here()), at()),
        Ok(Value::I128(i128::MAX.wrapping_mul(3), at()))
    );
    assert_eq!(
        Value::U64(u64::MAX, here()).mul_wrapped(Value::U64(u64::MAX, here()), at()),
        Ok(Value::U64(1, at()))
    );
}

#[test]
fn div_rounds_toward_zero() {
    assert_eq!(Value::U8(7, here()).div(Value::U8(2, here()), at()), Ok(Value::U8(3, at())));
    assert_eq!(Value::I8(-7, here()).div(Value::I8(2, here()), at()), Ok(Value::I8(-3, at())));
    assert_eq!(Value::I8(7, here()).div(Value::I8(-2, here()), at()), Ok(Value::I8(-3, at())));
    assert_eq!(Value::I8(-7, here()).div(Value::I8(-2, here()), at()), Ok(Value::I8(3, at())));
    assert_eq!(Value::I8(0, here()).div(Value::I8(-2, here()), at()), Ok(Value::I8(0, at())));
}

#[test]
fn div_by_zero_fails_checked_and_wrapped() {
    assert_eq!(Value::U8(7, here()).div(Value::U8(0, here()), at()), division_by_zero());
    assert_eq!(Value::I64(7, here()).div_wrapped(Value::I64(0, here()), at()), division_by_zero());
    assert_eq!(Value::U8(0, here()).div(Value::U8(0, here()), at()), division_by_zero());
}

#[test]
fn div_of_the_least_value_by_minus_one() {
    assert_eq!(Value::I8(-128, here()).div(Value::I8(-1, here()), at()), overflow());
    assert_eq!(
        Value::I8(-128, here()).div_wrapped(Value::I8(-1, here()), at()),
        Ok(Value::I8(-128, at()))
    );
    assert_eq!(Value::I128(i128::MIN, here()).div(Value::I128(-1, here()), at()), overflow());
    assert_eq!(
        Value::I128(i128::MIN, here()).div_wrapped(Value::I128(-1, here()), at()),
        Ok(Value::I128(i128::MIN, at()))
    );
    assert_eq!(
        Value::U8(200, here()).div_wrapped(Value::U8(7, here()), at()),
        Ok(Value::U8(28, at()))
    );
}

#[test]
fn pow_checked() {
    assert_eq!(Value::U8(2, here()).pow(Value::U8(7, here()), at()), Ok(Value::U8(128, at())));
    assert_eq!(Value::U8(2, here()).pow(Value::U8(8, here()), at()), overflow());
    assert_eq!(Value::U8(0, here()).pow(Value::U8(0, here()), at()), Ok(Value::U8(1, at())));
    assert_eq!(Value::U8(0, here()).pow(Value::U8(200, here()), at()), Ok(Value::U8(0, at())));
    assert_eq!(Value::U8(1, here()).pow(Value::U8(255, here()), at()), Ok(Value::U8(1, at())));
    assert_eq!(Value::U8(7, here()).pow(Value::U8(0, here()), at()), Ok(Value::U8(1, at())));
    assert_eq!(Value::I8(-2, here()).pow(Value::I8(7, here()), at()), Ok(Value::I8(-128, at())));
    assert_eq!(Value::I8(-2, here()).pow(Value::I8(8, here()), at()), overflow());
    assert_eq!(Value::I8(2, here()).pow(Value::I8(7, here()), at()), overflow());
    assert_eq!(Value::I8(-1, here()).pow(Value::I8(127, here()), at()), Ok(Value::I8(-1, at())));
    assert_eq!(Value::I8(-1, here()).pow(Value::I8(126, here()), at()), Ok(Value::I8(1, at())));
    assert_eq!(
        Value::U128(2, here()).pow(Value::U128(127, here()), at()),
        Ok(Value::U128(1u128 << 127, at()))
    );
    assert_eq!(Value::U128(2, here()).pow(Value::U128(128, here()), at()), overflow());
    assert_eq!(Value::U128(3, here()).pow(Value::U128(u128::MAX, here()), at()), overflow());
    assert_eq!(
        Value::I128(-2, here()).pow(Value::I128(127, here()), at()),
        Ok(Value::I128(i128::MIN, at()))
    );
    assert_eq!(
        Value::U64(10, here()).pow(Value::U64(19, here()), at()),
        Ok(Value::U64(10_000_000_000_000_000_000, at()))
    );
    assert_eq!(Value::U64(10, here()).pow(Value::U64(20, here()), at()), overflow());
}

#[test]
fn pow_of_a_negative_exponent_fails() {
    assert_eq!(Value::I8(2, here()).pow(Value::I8(-1, here()), at()), overflow());
    assert_eq!(Value::I8(1, here()).pow_wrapped(Value::I8(-1, here()), at()), overflow());
}

#[test]
fn pow_wrapped_wraps_modulo_the_width() {
    assert_eq!(
        Value::U8(3, here()).pow_wrapped(Value::U8(5, here()), at()),
        Ok(Value::U8(243, at()))
    );
    assert_eq!(
        Value::U8(3, here()).pow_wrapped(Value::U8(6, here()), at()),
        Ok(Value::U8(217, at()))
    );
    assert_eq!(
        Value::U8(2, here()).pow_wrapped(Value::U8(8, here()), at()),
        Ok(Value::U8(0, at()))
    );
    assert_eq!(
        Value::I8(-3, here()).pow_wrapped(Value::I8(3, here()), at()),
        Ok(Value::I8(-27, at()))
    );
    assert_eq!(
        Value::I8(-3, here()).pow_wrapped(Value::I8(5, here()), at()),
        Ok(Value::I8((-243i32) as i8, at()))
    );
    assert_eq!(
        Value::I8(2, here()).pow_wrapped(Value::I8(7, here()), at()),
        Ok(Value::I8(-128, at()))
    );
    assert_eq!(
        Value::U32(7, here()).pow_wrapped(Value::U32(77, here()), at()),
        Ok(Value::U32(7u32.wrapping_pow(77), at()))
    );
    assert_eq!(
        Value::U128(3, here()).pow_wrapped(Value::U128(200, here()), at()),
        Ok(Value::U128(3u128.wrapping_pow(200), at()))
    );
    assert_eq!(
        Value::I128(-3, here()).pow_wrapped(Value::I128(201, here()), at()),
        Ok(Value::I128((-3i128).wrapping_pow(201), at()))
    );
    assert_eq!(
        Value::I64(-7, here()).pow_wrapped(Value::I64(1001, here()), at()),
        Ok(Value::I64((-7i64).wrapping_pow(1001), at()))
    );
    assert_eq!(
        Value::U64(3, here()).pow_wrapped(Value::U64(u64::MAX, here()), at()),
        Ok(Value::U64(12297829382473034411, at()))
    );
    assert_eq!(
        Value::U8(0, here()).pow_wrapped(Value::U8(0, here()), at()),
        Ok(Value::U8(1, at()))
    );
}

#[test]
fn shifts_move_the_bits() {
    assert_eq!(Value::U8(1, here()).shl(Value::U8(7, here()), at()), Ok(Value::U8(128, at())));
    assert_eq!(Value::U8(255, here()).shl(Value::U8(4, here()), at()), Ok(Value::U8(240, at())));
    assert_eq!(Value::U8(128, here()).shr(Value::U8(7, here()), at()), Ok(Value::U8(1, at())));
    assert_eq!(Value::I8(-128, here()).shr(Value::I8(1, here()), at()), Ok(Value::I8(-64, at())));
    assert_eq!(Value::I8(-1, here()).shr(Value::I8(7, here()), at()), Ok(Value::I8(-1, at())));
    assert_eq!(Value::I8(1, here()).shl(Value::I8(7, here()), at()), Ok(Value::I8(-128, at())));
    assert_eq!(
        Value::U128(1, here()).shl(Value::U128(127, here()), at()),
        Ok(Value::U128(1u128 << 127, at()))
    );
    assert_eq!(Value::U16(0x1234, here()).shr(Value::U16(0, here()), at()), Ok(Value::U16(0x1234, at())));
}

#[test]
fn checked_shifts_refuse_amounts_outside_the_width() {
    assert_eq!(Value::U8(1, here()).shl(Value::U8(8, here()), at()), overflow());
    assert_eq!(Value::U8(1, here()).shr(Value::U8(200, here()), at()), overflow());
    assert_eq!(Value::I8(1, here()).shl(Value::I8(-1, here()), at()), overflow());
    assert_eq!(Value::U128(1, here()).shl(Value::U128(128, here()), at()), overflow());
    assert_eq!(Value::I64(1, here()).shr(Value::I64(64, here()), at()), overflow());
}

#[test]
fn wrapped_shifts_reduce_the_amount() {
    assert_eq!(
        Value::U8(1, here()).shl_wrapped(Value::U8(9, here()), at()),
        Ok(Value::U8(2, at()))
    );
    assert_eq!(
        Value::U8(128, here()).shr_wrapped(Value::U8(15, here()), at()),
        Ok(Value::U8(1, at()))
    );
    assert_eq!(
        Value::I8(1, here()).shl_wrapped(Value::I8(-1, here()), at()),
        Ok(Value::I8(-128, at()))
    );
    assert_eq!(
        Value::I8(64, here()).shr_wrapped(Value::I8(-7, here()), at()),
        Ok(Value::I8(32, at()))
    );
    assert_eq!(
        Value::U128(1, here()).shl_wrapped(Value::U128(129, here()), at()),
        Ok(Value::U128(2, at()))
    );
    assert_eq!(
        Value::U32(1, here()).shl_wrapped(Value::U32(32, here()), at()),
        Ok(Value::U32(1, at()))
    );
}

#[test]
fn bitwise_operations_on_integers() {
    assert_eq!(
        Value::U8(0b1100, here()).bitand(Value::U8(0b1010, here()), at()),
        Ok(Value::U8(0b1000, at()))
    );
    assert_eq!(
        Value::U8(0b1100, here()).bitor(Value::U8(0b1010, here()), at()),
        Ok(Value::U8(0b1110, at()))
    );
    assert_eq!(
        Value::U8(0b1100, here()).xor(Value::U8(0b1010, here()), at()),
        Ok(Value::U8(0b0110, at()))
    );
    assert_eq!(Value::I8(-1, here()).bitand(Value::I8(5, here()), at()), Ok(Value::I8(5, at())));
    assert_eq!(Value::I16(-2, here()).bitor(Value::I16(1, here()), at()), Ok(Value::I16(-1, at())));
    assert_eq!(
        Value::I128(-1, here()).xor(Value::I128(i128::MAX, here()), at()),
        Ok(Value::I128(i128::MIN, at()))
    );
    assert_eq!(
        Value::U64(u64::MAX, here()).xor(Value::U64(1, here()), at()),
        Ok(Value::U64(u64::MAX - 1, at()))
    );
}

#[test]
fn logical_operations_on_booleans() {
    let yes = Value::Boolean(true, here());
    let no = Value::Boolean(false, here());
    assert_eq!(yes.bitand(no, at()), Ok(Value::Boolean(false, at())));
    assert_eq!(yes.bitand(yes, at()), Ok(Value::Boolean(true, at())));
    assert_eq!(yes.bitor(no, at()), Ok(Value::Boolean(true, at())));
    assert_eq!(no.bitor(no, at()), Ok(Value::Boolean(false, at())));
    assert_eq!(yes.xor(no, at()), Ok(Value::Boolean(true, at())));
    assert_eq!(yes.xor(yes, at()), Ok(Value::Boolean(false, at())));
}

#[test]
fn not_complements() {
    assert_eq!(Value::Boolean(true, here()).not(at()), Ok(Value::Boolean(false, at())));
    assert_eq!(Value::Boolean(false, here()).not(at()), Ok(Value::Boolean(true, at())));
    assert_eq!(Value::U8(0b1010_1010, here()).not(at()), Ok(Value::U8(0b0101_0101, at())));
    assert_eq!(Value::I8(0, here()).not(at()), Ok(Value::I8(-1, at())));
    assert_eq!(Value::U128(0, here()).not(at()), Ok(Value::U128(u128::MAX, at())));
    assert_eq!(Value::Field(Symbol::new(3), here()).not(at()), mismatch());
    assert_eq!(Value::String(Symbol::new(3), here()).not(at()), mismatch());
}

#[test]
fn neg_negates_signed_integers_only() {
    assert_eq!(Value::I8(5, here()).neg(at()), Ok(Value::I8(-5, at())));
    assert_eq!(Value::I8(-127, here()).neg(at()), Ok(Value::I8(127, at())));
    assert_eq!(Value::I8(0, here()).neg(at()), Ok(Value::I8(0, at())));
    assert_eq!(Value::I8(-128, here()).neg(at()), overflow());
    assert_eq!(Value::I128(i128::MIN, here()).neg(at()), overflow());
    assert_eq!(Value::I128(i128::MAX, here()).neg(at()), Ok(Value::I128(i128::MIN + 1, at())));
    assert_eq!(Value::U8(5, here()).neg(at()), mismatch());
    assert_eq!(Value::Boolean(true, here()).neg(at()), mismatch());
    assert_eq!(Value::Field(Symbol::new(1), here()).neg(at()), mismatch());
}

#[test]
fn comparisons_of_integers() {
    let small = Value::I16(-3, here());
    let large = Value::I16(4, here());
    assert_eq!(small.lt(large, at()), Ok(Value::Boolean(true, at())));
    assert_eq!(large.lt(small, at()), Ok(Value::Boolean(false, at())));
    assert_eq!(small.lt(small, at()), Ok(Value::Boolean(false, at())));
    assert_eq!(small.le(small, at()), Ok(Value::Boolean(true, at())));
    assert_eq!(large.le(small, at()), Ok(Value::Boolean(false, at())));
    assert_eq!(large.gt(small, at()), Ok(Value::Boolean(true, at())));
    assert_eq!(small.gt(small, at()), Ok(Value::Boolean(false, at())));
    assert_eq!(small.ge(small, at()), Ok(Value::Boolean(true, at())));
    assert_eq!(small.ge(large, at()), Ok(Value::Boolean(false, at())));
    assert_eq!(small.eq(small, at()), Ok(Value::Boolean(true, at())));
    assert_eq!(small.eq(large, at()), Ok(Value::Boolean(false, at())));
    assert_eq!(
        Value::I8(-2, here()).lt(Value::I8(-1, here()), at()),
        Ok(Value::Boolean(true, at()))
    );
    assert_eq!(
        Value::U128(u128::MAX, here()).gt(Value::U128(0, here()), at()),
        Ok(Value::Boolean(true, at()))
    );
    assert_eq!(
        Value::I128(i128::MIN, here()).lt(Value::I128(i128::MAX, here()), at()),
        Ok(Value::Boolean(true, at()))
    );
}

#[test]
fn comparisons_of_other_kinds() {
    let yes = Value::Boolean(true, here());
    let no = Value::Boolean(false, here());
    assert_eq!(yes.eq(no, at()), Ok(Value::Boolean(false, at())));
    assert_eq!(yes.eq(yes, at()), Ok(Value::Boolean(true, at())));
    assert_eq!(yes.lt(no, at()), mismatch());
    assert_eq!(yes.ge(no, at()), mismatch());
    let field = Value::Field(Symbol::new(1), here());
    assert_eq!(field.eq(field, at()), mismatch());
    assert_eq!(field.le(field, at()), mismatch());
}

#[test]
fn operands_of_different_kinds_are_refused() {
    let byte = Value::U8(1, here());
    let word = Value::U16(1, here());
    let signed = Value::I8(1, here());
    let truth = Value::Boolean(true, here());
    assert_eq!(byte.add(word, at()), mismatch());
    assert_eq!(byte.add_wrapped(signed, at()), mismatch());
    assert_eq!(byte.sub(truth, at()), mismatch());
    assert_eq!(truth.mul(truth, at()), mismatch());
    assert_eq!(byte.div(Value::U16(0, here()), at()), mismatch());
    assert_eq!(byte.pow(word, at()), mismatch());
    assert_eq!(byte.shl(word, at()), mismatch());
    assert_eq!(byte.shr_wrapped(signed, at()), mismatch());
    assert_eq!(byte.bitand(truth, at()), mismatch());
    assert_eq!(truth.bitor(word, at()), mismatch());
    assert_eq!(byte.xor(signed, at()), mismatch());
    assert_eq!(byte.eq(word, at()), mismatch());
    assert_eq!(byte.lt(signed, at()), mismatch());
    assert_eq!(
        Value::Address(Symbol::new(1), here()).add(Value::Address(Symbol::new(1), here()), at()),
        mismatch()
    );
}

#[test]
fn only_booleans_and_integers_fold() {
    assert!(Value::Boolean(false, here()).is_supported_const_fold_type());
    assert!(Value::U8(0, here()).is_supported_const_fold_type());
    assert!(Value::I128(0, here()).is_supported_const_fold_type());
    assert!(Value::U64(0, here()).is_supported_const_fold_type());
    assert!(!Value::Address(Symbol::new(0), here()).is_supported_const_fold_type());
    assert!(!Value::Field(Symbol::new(0), here()).is_supported_const_fold_type());
    assert!(!Value::Group(Symbol::new(0), here()).is_supported_const_fold_type());
    assert!(!Value::Scalar(Symbol::new(0), here()).is_supported_const_fold_type());
    assert!(!Value::String(Symbol::new(0), here()).is_supported_const_fold_type());
}

#[test]
fn numerals_become_values_where_they_fit() {
    let minus = |magnitude: u128| Numeral { negative: true, magnitude };
    assert_eq!(
        Value::from_numeral(IntegerType::U8, Numeral::natural(255), at()),
        Some(Value::U8(255, at()))
    );
    assert_eq!(Value::from_numeral(IntegerType::U8, Numeral::natural(256), at()), None);
    assert_eq!(Value::from_numeral(IntegerType::U8, minus(1), at()), None);
    assert_eq!(Value::from_numeral(IntegerType::U8, minus(0), at()), Some(Value::U8(0, at())));
    assert_eq!(Value::from_numeral(IntegerType::I8, minus(128), at()), Some(Value::I8(-128, at())));
    assert_eq!(Value::from_numeral(IntegerType::I8, minus(129), at()), None);
    assert_eq!(Value::from_numeral(IntegerType::I8, Numeral::natural(128), at()), None);
    assert_eq!(
        Value::from_numeral(IntegerType::I8, Numeral::natural(127), at()),
        Some(Value::I8(127, at()))
    );
    assert_eq!(
        Value::from_numeral(IntegerType::I128, minus(1u128 << 127), at()),
        Some(Value::I128(i128::MIN, at()))
    );
    assert_eq!(Value::from_numeral(IntegerType::I128, minus((1u128 << 127) + 1), at()), None);
    assert_eq!(Value::from_numeral(IntegerType::I128, Numeral::natural(1u128 << 127), at()), None);
    assert_eq!(
        Value::from_numeral(IntegerType::U128, Numeral::natural(u128::MAX), at()),
        Some(Value::U128(u128::MAX, at()))
    );
    assert_eq!(
        Value::from_numeral(IntegerType::I64, minus(1u128 << 63), at()),
        Some(Value::I64(i64::MIN, at()))
    );
    assert_eq!(
        Value::from_numeral(IntegerType::U16, Numeral::natural(65535), at()),
        Some(Value::U16(65535, at()))
    );
    assert_eq!(Value::from_numeral(IntegerType::U32, Numeral::natural(1 << 32), at()), None);
    assert_eq!(
        Value::from_numeral(IntegerType::I32, minus(1 << 31), at()),
        Some(Value::I32(i32::MIN, at()))
    );
    assert_eq!(
        Value::from_numeral(IntegerType::I16, Numeral::natural(32767), at()),
        Some(Value::I16(32767, at()))
    );
    assert_eq!(Value::from_numeral(IntegerType::U64, Numeral::natural(1 << 64), at()), None);
}

#[test]
fn values_give_their_numerals() {
    assert_eq!(
        Value::I8(-128, at()).to_numeral(),
        Some((IntegerType::I8, Numeral { negative: true, magnitude: 128 }))
    );
    assert_eq!(
        Value::I128(i128::MIN, at()).to_numeral(),
        Some((IntegerType::I128, Numeral { negative: true, magnitude: 1u128 << 127 }))
    );
    assert_eq!(
        Value::U128(u128::MAX, at()).to_numeral(),
        Some((IntegerType::U128, Numeral { negative: false, magnitude: u128::MAX }))
    );
    assert_eq!(
        Value::I32(0, at()).to_numeral(),
        Some((IntegerType::I32, Numeral { negative: false, magnitude: 0 }))
    );
    assert_eq!(Value::Boolean(true, at()).to_numeral(), None);
    assert_eq!(Value::Field(Symbol::new(9), at()).to_numeral(), None);
}

#[test]
fn wrap_numeral_keeps_the_low_bits() {
    let minus = |magnitude: u128| Numeral { negative: true, magnitude };
    assert_eq!(IntegerType::U8.wrap_numeral(Numeral::natural(256), at()), Value::U8(0, at()));
    assert_eq!(IntegerType::U8.wrap_numeral(Numeral::natural(511), at()), Value::U8(255, at()));
    assert_eq!(IntegerType::U8.wrap_numeral(minus(1), at()), Value::U8(255, at()));
    assert_eq!(IntegerType::U8.wrap_numeral(minus(256), at()), Value::U8(0, at()));
    assert_eq!(IntegerType::I8.wrap_numeral(Numeral::natural(128), at()), Value::I8(-128, at()));
    assert_eq!(IntegerType::I8.wrap_numeral(minus(129), at()), Value::I8(127, at()));
    assert_eq!(IntegerType::I16.wrap_numeral(Numeral::natural(40000), at()), Value::I16(-25536, at()));
    assert_eq!(IntegerType::U32.wrap_numeral(minus(1), at()), Value::U32(u32::MAX, at()));
    assert_eq!(IntegerType::I64.wrap_numeral(Numeral::natural(1 << 63), at()), Value::I64(i64::MIN, at()));
    assert_eq!(IntegerType::U128.wrap_numeral(minus(1), at()), Value::U128(u128::MAX, at()));
    assert_eq!(
        IntegerType::I128.wrap_numeral(Numeral::natural(u128::MAX), at()),
        Value::I128(-1, at())
    );
    assert_eq!(
        IntegerType::I128.wrap_numeral(Numeral::natural(1u128 << 127), at()),
        Value::I128(i128::MIN, at())
    );
    assert_eq!(IntegerType::I128.wrap_numeral(minus(u128::MAX), at()), Value::I128(1, at()));
}

#[test]
fn integer_types_know_their_width_and_sign() {
    assert_eq!(IntegerType::U8.width(), 8);
    assert_eq!(IntegerType::I16.width(), 16);
    assert_eq!(IntegerType::U32.width(), 32);
    assert_eq!(IntegerType::I64.width(), 64);
    assert_eq!(IntegerType::U128.width(), 128);
    assert!(IntegerType::I8.signed());
    assert!(IntegerType::I128.signed());
    assert!(!IntegerType::U8.signed());
    assert!(!IntegerType::U128.signed());
}

#[test]
fn numerals_of_integers() {
    assert_eq!(Numeral::integer(-5), Numeral { negative: true, magnitude: 5 });
    assert_eq!(Numeral::integer(5), Numeral { negative: false, magnitude: 5 });
    assert_eq!(Numeral::integer(0), Numeral { negative: false, magnitude: 0 });
    assert_eq!(Numeral::integer(i128::MIN), Numeral { negative: true, magnitude: 1u128 << 127 });
    assert_eq!(Numeral::natural(7), Numeral { negative: false, magnitude: 7 });
}
