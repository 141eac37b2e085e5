use leo_passes::value::{EvalError, EvalErrorKind, Value};
use leo_passes::Span;

fn at() -> Span {
    Span::new(3, 4)
}

fn checked<T>(value: Option<T>, make: fn(T, Span) -> Value) -> Result<Value, EvalError> {
    match value {
        Some(value) => Ok(make(value, at())),
        None => Err(EvalError { kind: EvalErrorKind::Overflow, span: at() }),
    }
}

fn truth(value: bool) -> Result<Value, EvalError> {
    Ok(Value::Boolean(value, at()))
}

#[test]
fn every_pair_of_unsigned_bytes_agrees_with_the_machine() {
    for a in 0..=u8::MAX {
        for b in 0..=u8::MAX {
            let left = Value::U8(a, Span::dummy());
            let right = Value::U8(b, Span::dummy());
            let ok = |value: u8| Ok(Value::U8(value, at()));
            assert_eq!(left.add(right, at()), checked(a.checked_add(b), Value::U8));
            assert_eq!(left.sub(right, at()), checked(a.checked_sub(b), Value::U8));
            assert_eq!(left.mul(right, at()), checked(a.checked_mul(b), Value::U8));
            assert_eq!(left.pow(right, at()), checked(a.checked_pow(b as u32), Value::U8));
            assert_eq!(left.shl(right, at()), checked(a.checked_shl(b as u32), Value::U8));
            assert_eq!(left.shr(right, at()), checked(a.checked_shr(b as u32), Value::U8));
            assert_eq!(left.add_wrapped(right, at()), ok(a.wrapping_add(b)));
            assert_eq!(left.sub_wrapped(right, at()), ok(a.wrapping_sub(b)));
            assert_eq!(left.mul_wrapped(right, at()), ok(a.wrapping_mul(b)));
            assert_eq!(left.pow_wrapped(right, at()), ok(a.wrapping_pow(b as u32)));
            assert_eq!(left.shl_wrapped(right, at()), ok(a.wrapping_shl(b as u32)));
            assert_eq!(left.shr_wrapped(right, at()), ok(a.wrapping_shr(b as u32)));
            assert_eq!(left.bitand(right, at()), ok(a & b));
            assert_eq!(left.bitor(right, at()), ok(a | b));
            assert_eq!(left.xor(right, at()), ok(a ^ b));
            assert_eq!(left.eq(right, at()), truth(a == b));
            assert_eq!(left.lt(right, at()), truth(a < b));
            assert_eq!(left.le(right, at()), truth(a <= b));
            assert_eq!(left.gt(right, at()), truth(a > b));
            assert_eq!(left.ge(right, at()), truth(a >= b));
            if b == 0 {
                let zero = Err(EvalError { kind: EvalErrorKind::DivisionByZero, span: at() });
                assert_eq!(left.div(right, at()), zero);
                assert_eq!(left.div_wrapped(right, at()), zero);
            } else {
                assert_eq!(left.div(right, at()), ok(a / b));
                assert_eq!(left.div_wrapped(right, at()), ok(a.wrapping_div(b)));
            }
        }
        assert_eq!(Value::U8(a, Span::dummy()).not(at()), Ok(Value::U8(!a, at())));
    }
}

#[test]
fn every_pair_of_signed_bytes_agrees_with_the_machine() {
    for a in i8::MIN..=i8::MAX {
        for b in i8::MIN..=i8::MAX {
            let left = Value::I8(a, Span::dummy());
            let right = Value::I8(b, Span::dummy());
            let ok = |value: i8| Ok(Value::I8(value, at()));
            let overflow = Err(EvalError { kind: EvalErrorKind::Overflow, span: at() });
            assert_eq!(left.add(right, at()), checked(a.checked_add(b), Value::I8));
            assert_eq!(left.sub(right, at()), checked(a.checked_sub(b), Value::I8));
            assert_eq!(left.mul(right, at()), checked(a.checked_mul(b), Value::I8));
            assert_eq!(left.add_wrapped(right, at()), ok(a.wrapping_add(b)));
            assert_eq!(left.sub_wrapped(right, at()), ok(a.wrapping_sub(b)));
            assert_eq!(left.mul_wrapped(right, at()), ok(a.wrapping_mul(b)));
            assert_eq!(left.shl_wrapped(right, at()), ok(a.wrapping_shl(b as u32)));
            assert_eq!(left.shr_wrapped(right, at()), ok(a.wrapping_shr(b as u32)));
            if b < 0 {
                assert_eq!(left.pow(right, at()), overflow);
                assert_eq!(left.pow_wrapped(right, at()), overflow);
                assert_eq!(left.shl(right, at()), overflow);
                assert_eq!(left.shr(right, at()), overflow);
            } else {
                assert_eq!(left.pow(right, at()), checked(a.checked_pow(b as u32), Value::I8));
                assert_eq!(left.pow_wrapped(right, at()), ok(a.wrapping_pow(b as u32)));
                assert_eq!(left.shl(right, at()), checked(a.checked_shl(b as u32), Value::I8));
                assert_eq!(left.shr(right, at()), checked(a.checked_shr(b as u32), Value::I8));
            }
            assert_eq!(left.bitand(right, at()), ok(a & b));
            assert_eq!(left.bitor(right, at()), ok(a | b));
            assert_eq!(left.xor(right, at()), ok(a ^ b));
            assert_eq!(left.eq(right, at()), truth(a == b));
            assert_eq!(left.lt(right, at()), truth(a < b));
            assert_eq!(left.le(right, at()), truth(a <= b));
            assert_eq!(left.gt(right, at()), truth(a > b));
            assert_eq!(left.ge(right, at()), truth(a >= b));
            if b == 0 {
                let zero = Err(EvalError { kind: EvalErrorKind::DivisionByZero, span: at() });
                assert_eq!(left.div(right, at()), zero);
                assert_eq!(left.div_wrapped(right, at()), zero);
            } else {
                assert_eq!(left.div(right, at()), checked(a.checked_div(b), Value::I8));
                assert_eq!(left.div_wrapped(right, at()), ok(a.wrapping_div(b)));
            }
        }
        let value = Value::I8(a, Span::dummy());
        assert_eq!(value.not(at()), Ok(Value::I8(!a, at())));
        assert_eq!(value.neg(at()), checked(a.checked_neg(), Value::I8));
    }
}

/// A fixed sequence of numbers that covers small, large and extreme values.
fn samples() -> Vec<u128> {
    let mut samples = vec![0, 1, 2, 3, 7, 10, 127, 128, 255, 256, u128::MAX, u128::MAX - 1];
    samples.push(1 << 63);
    samples.push((1 << 63) - 1);
    samples.push(1 << 64);
    samples.push(1 << 127);
    samples.push((1 << 127) - 1);
    samples.push((1 << 127) + 1);
    let mut state: u128 = 0x2545_f491_4f6c_dd1d_9e37_79b9_7f4a_7c15;
    for i in 0..40 {
        state = state.wrapping_mul(0x5851_f42d_4c95_7f2d_1405_7b7e_f767_814f).wrapping_add(0x1405);
        samples.push(state >> (i % 5 * 29));
    }
    samples
}

#[test]
fn wide_unsigned_integers_agree_with_the_machine() {
    for a in samples() {
        for b in samples() {
            let left = Value::U128(a, Span::dummy());
            let right = Value::U128(b, Span::dummy());
            let ok = |value: u128| Ok(Value::U128(value, at()));
            assert_eq!(left.add(right, at()), checked(a.checked_add(b), Value::U128));
            assert_eq!(left.sub(right, at()), checked(a.checked_sub(b), Value::U128));
            assert_eq!(left.mul(right, at()), checked(a.checked_mul(b), Value::U128));
            assert_eq!(left.add_wrapped(right, at()), ok(a.wrapping_add(b)));
            assert_eq!(left.sub_wrapped(right, at()), ok(a.wrapping_sub(b)));
            assert_eq!(left.mul_wrapped(right, at()), ok(a.wrapping_mul(b)));
            if b <= u32::MAX as u128 {
                assert_eq!(left.pow(right, at()), checked(a.checked_pow(b as u32), Value::U128));
                assert_eq!(left.pow_wrapped(right, at()), ok(a.wrapping_pow(b as u32)));
                assert_eq!(left.shl(right, at()), checked(a.checked_shl(b as u32), Value::U128));
                assert_eq!(left.shr(right, at()), checked(a.checked_shr(b as u32), Value::U128));
            }
            assert_eq!(left.shl_wrapped(right, at()), ok(a << (b % 128)));
            assert_eq!(left.shr_wrapped(right, at()), ok(a >> (b % 128)));
            if b != 0 {
                assert_eq!(left.div(right, at()), ok(a / b));
                assert_eq!(left.div_wrapped(right, at()), ok(a / b));
            }
            assert_eq!(left.lt(right, at()), truth(a < b));
            assert_eq!(left.xor(right, at()), ok(a ^ b));

            let a = a as u64;
            let b = b as u64;
            let left = Value::U64(a, Span::dummy());
            let right = Value::U64(b, Span::dummy());
            let ok = |value: u64| Ok(Value::U64(value, at()));
            assert_eq!(left.add(right, at()), checked(a.checked_add(b), Value::U64));
            assert_eq!(left.mul(right, at()), checked(a.checked_mul(b), Value::U64));
            assert_eq!(left.add_wrapped(right, at()), ok(a.wrapping_add(b)));
            assert_eq!(left.sub_wrapped(right, at()), ok(a.wrapping_sub(b)));
            assert_eq!(left.mul_wrapped(right, at()), ok(a.wrapping_mul(b)));
            if b <= u32::MAX as u64 {
                assert_eq!(left.pow(right, at()), checked(a.checked_pow(b as u32), Value::U64));
                assert_eq!(left.pow_wrapped(right, at()), ok(a.wrapping_pow(b as u32)));
            }
            assert_eq!(left.shl_wrapped(right, at()), ok(a << (b % 64)));
        }
    }
}

#[test]
fn wide_signed_integers_agree_with_the_machine() {
    for a in samples() {
        for b in samples() {
            let a = a as i128;
            let b = b as i128;
            let left = Value::I128(a, Span::dummy());
            let right = Value::I128(b, Span::dummy());
            let ok = |value: i128| Ok(Value::I128(value, at()));
            assert_eq!(left.add(right, at()), checked(a.checked_add(b), Value::I128));
            assert_eq!(left.sub(right, at()), checked(a.checked_sub(b), Value::I128));
            assert_eq!(left.mul(right, at()), checked(a.checked_mul(b), Value::I128));
            assert_eq!(left.add_wrapped(right, at()), ok(a.wrapping_add(b)));
            assert_eq!(left.sub_wrapped(right, at()), ok(a.wrapping_sub(b)));
            assert_eq!(left.mul_wrapped(right, at()), ok(a.wrapping_mul(b)));
            if 0 <= b && b <= u32::MAX as i128 {
                assert_eq!(left.pow(right, at()), checked(a.checked_pow(b as u32), Value::I128));
                assert_eq!(left.pow_wrapped(right, at()), ok(a.wrapping_pow(b as u32)));
            }
            assert_eq!(left.shl_wrapped(right, at()), ok(a.wrapping_shl(b as u32)));
            assert_eq!(left.shr_wrapped(right, at()), ok(a.wrapping_shr(b as u32)));
            if b != 0 {
                assert_eq!(left.div(right, at()), checked(a.checked_div(b), Value::I128));
                assert_eq!(left.div_wrapped(right, at()), ok(a.wrapping_div(b)));
            }
            assert_eq!(left.lt(right, at()), truth(a < b));
            assert_eq!(left.ge(right, at()), truth(a >= b));
            assert_eq!(left.neg(at()), checked(a.checked_neg(), Value::I128));

            let a = a as i32;
            let b = b as i32;
            let left = Value::I32(a, Span::dummy());
            let right = Value::I32(b, Span::dummy());
            let ok = |value: i32| Ok(Value::I32(value, at()));
            assert_eq!(left.add(right, at()), checked(a.checked_add(b), Value::I32));
            assert_eq!(left.mul(right, at()), checked(a.checked_mul(b), Value::I32));
            assert_eq!(left.sub_wrapped(right, at()), ok(a.wrapping_sub(b)));
            assert_eq!(left.mul_wrapped(right, at()), ok(a.wrapping_mul(b)));
            if b >= 0 {
                assert_eq!(left.pow(right, at()), checked(a.checked_pow(b as u32), Value::I32));
                assert_eq!(left.pow_wrapped(right, at()), ok(a.wrapping_pow(b as u32)));
            }
            assert_eq!(left.shr_wrapped(right, at()), ok(a.wrapping_shr(b as u32)));
        }
    }
}
