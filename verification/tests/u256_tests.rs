use dex::io::U256PairTuple;
use dex::u256::{checked_mul_u128, div, mul_u128, sqrt, wrapping_mul_u64, U256};

#[test]
fn wide_multiplication_and_division_are_exact() {
    // 2^127 * 4 = 2^129: crosses the 128-bit limb boundary.
    let p = mul_u128(1u128 << 127, 4);
    assert_eq!(p, U256 { lo: 0, hi: 2 });
    let q = div(p, U256::from_u128(2));
    assert_eq!(q, U256 { lo: 0, hi: 1 });
    let q = div(p, U256 { lo: 0, hi: 1 });
    assert_eq!(q, U256::from_u128(2));
    // Floor division.
    assert_eq!(div(U256::from_u128(7), U256::from_u128(2)), U256::from_u128(3));
}

#[test]
fn checked_multiplication_detects_overflow() {
    let max = mul_u128(u128::MAX, u128::MAX);
    assert_eq!(checked_mul_u128(max, 2), None);
    assert_eq!(checked_mul_u128(U256::from_u128(3), 5), Some(U256::from_u128(15)));
}

#[test]
fn integer_sqrt_rounds_down() {
    assert_eq!(sqrt(U256::from_u128(0)), 0);
    assert_eq!(sqrt(U256::from_u128(99)), 9);
    assert_eq!(sqrt(U256::from_u128(100)), 10);
    assert_eq!(sqrt(mul_u128(123456789, 123456789)), 123456789);
    // The root of the largest product still fits 128 bits.
    assert_eq!(sqrt(mul_u128(u128::MAX, u128::MAX)), u128::MAX);
}

#[test]
fn wrapping_multiplication_reduces_modulo_2_256() {
    // (2^255) * 2 wraps to zero.
    let half = U256 { lo: 0, hi: 1u128 << 127 };
    assert_eq!(wrapping_mul_u64(half, 2), U256::zero());
    assert_eq!(wrapping_mul_u64(U256::from_u128(10), 3), U256::from_u128(30));
}

#[test]
fn limb_arithmetic() {
    let one = U256::from_u128(1);
    let max_lo = U256 { lo: u128::MAX, hi: 0 };
    assert_eq!(max_lo.checked_add(one), Some(U256 { lo: 0, hi: 1 }));
    let top = U256 { lo: u128::MAX, hi: u128::MAX };
    assert_eq!(top.checked_add(one), None);
    assert_eq!(top.wrapping_add(one), U256::zero());
    assert_eq!(U256 { lo: 0, hi: 1 }.sub(one), max_lo);
    assert!(one.lt(&max_lo));
    assert!(max_lo.lt(&U256 { lo: 0, hi: 1 }));
    assert!(one.le(&one));
    assert!(U256::zero().is_zero());
    assert_eq!(U256::from_u64(7), U256::from_u128(7));
    assert_eq!(U256::shl_128(3), U256 { lo: 0, hi: 3 });
    assert_eq!(U256 { lo: 5, hi: 9 }.low_u128(), 5);
}

#[test]
fn pair_tuple_widens_both_reserves() {
    let U256PairTuple(pair) = U256PairTuple::from((3u128, u128::MAX));
    assert_eq!(pair.0, U256::from_u128(3));
    assert_eq!(pair.1, U256::from_u128(u128::MAX));
}
