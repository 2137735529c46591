//! The constant-product pricing math: proportional quotes, output amount for
//! a given input (0.3% fee taken from the input), and input amount for a
//! given output (rounded up in the protocol's favor).
//!
//! Intermediates are 256 bits wide; narrowing back to 128 bits fails
//! explicitly with [`Error::Overflow`] instead of wrapping.

use vstd::prelude::*;
use crate::io::Error;
use crate::u256::{self, U256, pow2_256};

verus! {

/// The exact output amount as an unbounded integer:
/// `in * 997 * r_out / (r_in * 1000 + in * 997)`.
pub open spec fn spec_out_amount(in_amount: u128, r_in: u128, r_out: u128) -> int {
    (in_amount * 997 * r_out) / (r_in * 1000 + in_amount * 997)
}

/// The exact input amount as an unbounded integer:
/// `r_in * out * 1000 / ((r_out - out) * 997) + 1`.
pub open spec fn spec_in_amount(out_amount: u128, r_in: u128, r_out: u128) -> int {
    (r_in * out_amount * 1000) / ((r_out - out_amount) * 997) + 1
}

/// Which inputs every calculation rejects before touching the formulas.
pub open spec fn spec_precheck(amount: u128, reserve: (u128, u128)) -> Result<(), Error> {
    if reserve.0 == 0 || reserve.1 == 0 {
        Err(Error::InsufficientLiquidity)
    } else if amount == 0 {
        Err(Error::InsufficientAmount)
    } else {
        Ok(())
    }
}

/// What [`quote_unchecked`] returns: the proportional amount
/// `amount * reserve.1 / reserve.0`, or `Overflow` if it exceeds 128 bits.
pub open spec fn spec_quote_unchecked(amount: u128, reserve: (u128, u128)) -> Result<u128, Error> {
    if amount * reserve.1 / (reserve.0 as int) > u128::MAX {
        Err(Error::Overflow)
    } else {
        Ok((amount * reserve.1 / (reserve.0 as int)) as u128)
    }
}

/// What [`quote`] returns.
pub open spec fn spec_quote(amount: u128, reserve: (u128, u128)) -> Result<u128, Error> {
    if spec_precheck(amount, reserve) is Err {
        Err(spec_precheck(amount, reserve)->Err_0)
    } else {
        spec_quote_unchecked(amount, reserve)
    }
}

/// What [`quote_reserve_unchecked`] returns.
pub open spec fn spec_quote_reserve_unchecked(amount: u128, reserve: (u128, u128)) -> Result<
    u128,
    Error,
> {
    if amount == 0 {
        Err(Error::InsufficientAmount)
    } else {
        spec_quote_unchecked(amount, reserve)
    }
}

/// What [`calculate_out_amount`] returns.
pub open spec fn spec_calculate_out_amount(in_amount: u128, reserve: (u128, u128)) -> Result<
    u128,
    Error,
> {
    if spec_precheck(in_amount, reserve) is Err {
        Err(spec_precheck(in_amount, reserve)->Err_0)
    } else if in_amount * 997 * reserve.1 >= pow2_256() {
        Err(Error::Overflow)
    } else {
        Ok(spec_out_amount(in_amount, reserve.0, reserve.1) as u128)
    }
}

/// What [`calculate_in_amount`] returns.
pub open spec fn spec_calculate_in_amount(out_amount: u128, reserve: (u128, u128)) -> Result<
    u128,
    Error,
> {
    if spec_precheck(out_amount, reserve) is Err {
        Err(spec_precheck(out_amount, reserve)->Err_0)
    } else if reserve.0 * out_amount * 1000 >= pow2_256() {
        Err(Error::Overflow)
    } else if out_amount >= reserve.1 {
        Err(Error::Overflow)
    } else if spec_in_amount(out_amount, reserve.0, reserve.1) > u128::MAX {
        Err(Error::Overflow)
    } else {
        Ok(spec_in_amount(out_amount, reserve.0, reserve.1) as u128)
    }
}

/// Rejects zero reserves (`InsufficientLiquidity`) and a zero amount
/// (`InsufficientAmount`); every pricing calculation starts with this check.
pub fn perform_precalculate_check(amount: u128, reserve: (u128, u128)) -> (r: Result<(), Error>)
    ensures
        r == spec_precheck(amount, reserve),
{
    if reserve.0 == 0 || reserve.1 == 0 {
        Err(Error::InsufficientLiquidity)
    } else if amount == 0 {
        Err(Error::InsufficientAmount)
    } else {
        Ok(())
    }
}

/// The proportional amount of the latter token for `amount` of the former,
/// without the zero checks. Callers must rule out a zero `reserve.0`, on
/// which the division panics.
pub fn quote_unchecked(amount: u128, reserve: (u128, u128)) -> (r: Result<u128, Error>)
    requires
        reserve.0 > 0,
    ensures
        r == spec_quote_unchecked(amount, reserve),
{
    let n = u256::mul_u128(amount, reserve.1);
    let q = u256::div(n, U256::from_u128(reserve.0));
    if q.hi == 0 {
        Ok(q.low_u128())
    } else {
        Err(Error::Overflow)
    }
}

/// The proportional amount `amount * reserve.1 / reserve.0` after the
/// standard checks.
pub fn quote(amount: u128, reserve: (u128, u128)) -> (r: Result<u128, Error>)
    ensures
        r == spec_quote(amount, reserve),
{
    if let Err(error) = perform_precalculate_check(amount, reserve) {
        Err(error)
    } else {
        quote_unchecked(amount, reserve)
    }
}

/// [`quote_unchecked`] with only the zero-amount check, for callers that
/// already know both reserves are nonzero.
pub fn quote_reserve_unchecked(amount: u128, reserve: (u128, u128)) -> (r: Result<u128, Error>)
    requires
        reserve.0 > 0,
    ensures
        r == spec_quote_reserve_unchecked(amount, reserve),
{
    if amount == 0 {
        Err(Error::InsufficientAmount)
    } else {
        quote_unchecked(amount, reserve)
    }
}

/// How many output tokens an exact input buys, a 0.3% fee taken from the
/// input: `in * 997 * r_out / (r_in * 1000 + in * 997)`.
pub fn calculate_out_amount(in_amount: u128, reserve: (u128, u128)) -> (r: Result<u128, Error>)
    ensures
        r == spec_calculate_out_amount(in_amount, reserve),
{
    if let Err(error) = perform_precalculate_check(in_amount, reserve) {
        return Err(error);
    }
    let amount_with_fee = u256::mul_u128(in_amount, 997);
    match u256::checked_mul_u128(amount_with_fee, reserve.1) {
        None => Err(Error::Overflow),
        Some(numerator) => {
            proof {
                lemma_out_denominator_fits(in_amount, reserve.0);
            }
            let denominator = u256::mul_u128(reserve.0, 1000).add(amount_with_fee);
            let q = u256::div(numerator, denominator);
            proof {
                lemma_mul_div_le_factor(
                    in_amount * 997,
                    reserve.1 as int,
                    reserve.0 * 1000 + in_amount * 997,
                );
            }
            Ok(q.low_u128())
        },
    }
}

/// How many input tokens an exact output costs, rounded up by one so the
/// protocol never sells output for free:
/// `r_in * out * 1000 / ((r_out - out) * 997) + 1`.
pub fn calculate_in_amount(out_amount: u128, reserve: (u128, u128)) -> (r: Result<u128, Error>)
    ensures
        r == spec_calculate_in_amount(out_amount, reserve),
{
    if let Err(error) = perform_precalculate_check(out_amount, reserve) {
        return Err(error);
    }
    let base = u256::mul_u128(reserve.0, out_amount);
    match u256::checked_mul_u128(base, 1000) {
        None => Err(Error::Overflow),
        Some(numerator) => {
            if out_amount >= reserve.1 {
                return Err(Error::Overflow);
            }
            let rest = reserve.1 - out_amount;
            let denominator = u256::mul_u128(rest, 997);
            proof {
                vstd::arithmetic::mul::lemma_mul_strictly_positive(rest as int, 997);
            }
            let q = u256::div(numerator, denominator);
            if q.hi == 0 && q.lo < u128::MAX {
                Ok(q.lo + 1)
            } else {
                proof {
                    lemma_in_amount_overflow(q.val(), q.lo as int, q.hi as int);
                }
                Err(Error::Overflow)
            }
        },
    }
}

/// The denominator of the output formula stays far below `2^256`.
proof fn lemma_out_denominator_fits(in_amount: u128, r0: u128)
    ensures
        r0 * 1000 + in_amount * 997 < pow2_256(),
        in_amount >= 1 ==> r0 * 1000 + in_amount * 997 > 0,
{
    assert(r0 * 1000 <= u128::MAX * 1000) by {
        vstd::arithmetic::mul::lemma_mul_inequality(r0 as int, u128::MAX as int, 1000);
    }
    assert(in_amount * 997 <= u128::MAX * 997) by {
        vstd::arithmetic::mul::lemma_mul_inequality(in_amount as int, u128::MAX as int, 997);
    }
    if in_amount >= 1 {
        assert(in_amount * 997 >= 997) by {
            vstd::arithmetic::mul::lemma_mul_inequality(1, in_amount as int, 997);
        }
    }
}

/// Dividing `a * c` by anything at least `a` cannot exceed `c`.
pub proof fn lemma_mul_div_le_factor(a: int, c: int, d: int)
    requires
        0 <= a,
        0 <= c,
        0 < d,
        a <= d,
    ensures
        a * c / d <= c,
{
    vstd::arithmetic::mul::lemma_mul_inequality(a, d, c);
    vstd::arithmetic::div_mod::lemma_div_is_ordered(a * c, d * c, d);
    vstd::arithmetic::div_mod::lemma_div_multiples_vanish(c, d);
    assert(d * c == c * d) by {
        vstd::arithmetic::mul::lemma_mul_is_commutative(d, c);
    }
}

/// `k * d <= n` forces `k <= n / d`.
proof fn lemma_div_at_least(n: int, d: int, k: int)
    requires
        d > 0,
        k * d <= n,
    ensures
        k <= n / d,
{
    vstd::arithmetic::div_mod::lemma_div_is_ordered(k * d, n, d);
    vstd::arithmetic::div_mod::lemma_div_multiples_vanish(k, d);
    vstd::arithmetic::mul::lemma_mul_is_commutative(k, d);
}

/// The floor quotient of nonnegative `n` multiplied back never exceeds `n`.
proof fn lemma_div_mul_le(n: int, d: int)
    requires
        d > 0,
        n >= 0,
    ensures
        (n / d) * d <= n,
        n / d >= 0,
{
    vstd::arithmetic::div_mod::lemma_fundamental_div_mod(n, d);
    vstd::arithmetic::div_mod::lemma_mod_bound(n, d);
    vstd::arithmetic::div_mod::lemma_div_pos_is_pos(n, d);
    vstd::arithmetic::mul::lemma_mul_is_commutative(n / d, d);
}

/// The output amount is always a valid part of the output reserve.
pub proof fn lemma_out_amount_in_range(in_amount: u128, reserve: (u128, u128))
    requires
        reserve.0 > 0,
        reserve.1 > 0,
        in_amount > 0,
    ensures
        0 <= spec_out_amount(in_amount, reserve.0, reserve.1) < reserve.1,
{
    let r0 = reserve.0 as int;
    let r1 = reserve.1 as int;
    let f = in_amount * 997;
    let d = r0 * 1000 + f;
    let n = f * r1;
    lemma_out_denominator_fits(in_amount, reserve.0);
    assert(n >= 0) by {
        vstd::arithmetic::mul::lemma_mul_nonnegative(f, r1);
    }
    lemma_div_mul_le(n, d);
    let q = n / d;
    assert(q < r1) by (nonlinear_arith)
        requires
            q * d <= n,
            n == f * r1,
            d == r0 * 1000 + f,
            f == in_amount * 997,
            in_amount > 0,
            r0 > 0,
            r1 > 0,
            q >= 0,
    ;
}

/// Reserve product invariant: after a swap of `in_amount` against
/// `out_amount` as priced by the fee formula, the product of the two
/// reserves does not decrease — the 0.3% fee only makes the pool richer
/// than the constant product requires.
pub proof fn lemma_swap_preserves_product(in_amount: u128, reserve: (u128, u128), out_amount: u128)
    requires
        reserve.0 > 0,
        reserve.1 > 0,
        in_amount > 0,
        out_amount == spec_out_amount(in_amount, reserve.0, reserve.1),
    ensures
        out_amount < reserve.1,
        (reserve.0 + in_amount) * (reserve.1 - out_amount) >= reserve.0 * reserve.1,
{
    let r0 = reserve.0 as int;
    let r1 = reserve.1 as int;
    let x = in_amount as int;
    let f = in_amount * 997;
    let d = r0 * 1000 + f;
    let n = f * r1;
    lemma_out_amount_in_range(in_amount, reserve);
    lemma_out_denominator_fits(in_amount, reserve.0);
    assert(n >= 0) by {
        vstd::arithmetic::mul::lemma_mul_nonnegative(f, r1);
    }
    lemma_div_mul_le(n, d);
    let q = n / d;
    assert((r0 + x) * (r1 - q) >= r0 * r1) by (nonlinear_arith)
        requires
            q * d <= n,
            n == f * r1,
            d == r0 * 1000 + f,
            f == x * 997,
            r0 > 0,
            r1 > 0,
            x > 0,
            0 <= q < r1,
    ;
}

/// Reserve product invariant for the exact-output direction: the rounded-up
/// input amount always grows the product of the reserves.
pub proof fn lemma_swap_preserves_product_exact_out(
    out_amount: u128,
    reserve: (u128, u128),
    in_amount: u128,
)
    requires
        reserve.0 > 0,
        reserve.1 > 0,
        0 < out_amount < reserve.1,
        in_amount as int == spec_in_amount(out_amount, reserve.0, reserve.1),
    ensures
        (reserve.0 + in_amount) * (reserve.1 - out_amount) >= reserve.0 * reserve.1,
{
    let r0 = reserve.0 as int;
    let r1 = reserve.1 as int;
    let o = out_amount as int;
    let np = (r0 * o) * 1000;
    let dp = (r1 - o) * 997;
    assert(np >= 0) by {
        vstd::arithmetic::mul::lemma_mul_nonnegative(r0 * o, 1000);
        vstd::arithmetic::mul::lemma_mul_nonnegative(r0, o);
    }
    assert(dp >= 997) by {
        vstd::arithmetic::mul::lemma_mul_inequality(1, r1 - o, 997);
    }
    let qp = np / dp;
    vstd::arithmetic::div_mod::lemma_fundamental_div_mod(np, dp);
    vstd::arithmetic::div_mod::lemma_mod_bound(np, dp);
    let i = in_amount as int;
    assert(i * dp > np) by (nonlinear_arith)
        requires
            i == qp + 1,
            np == dp * qp + (np % dp),
            0 <= np % dp < dp,
    ;
    assert((r0 + i) * (r1 - o) >= r0 * r1) by (nonlinear_arith)
        requires
            i * dp > np,
            dp == (r1 - o) * 997,
            np == (r0 * o) * 1000,
            0 < o < r1,
            r0 > 0,
            i > 0,
    ;
}

/// The rounded-up input amount is never zero.
pub proof fn lemma_in_amount_positive(out_amount: u128, reserve: (u128, u128))
    requires
        reserve.0 > 0,
        reserve.1 > 0,
        0 < out_amount < reserve.1,
    ensures
        spec_in_amount(out_amount, reserve.0, reserve.1) >= 1,
{
    let np = (reserve.0 as int * out_amount) * 1000;
    let dp = (reserve.1 - out_amount) * 997;
    assert(np >= 0) by {
        vstd::arithmetic::mul::lemma_mul_nonnegative(reserve.0 as int * out_amount, 1000);
        vstd::arithmetic::mul::lemma_mul_nonnegative(reserve.0 as int, out_amount as int);
    }
    assert(dp >= 997) by {
        vstd::arithmetic::mul::lemma_mul_inequality(1, reserve.1 - out_amount, 997);
    }
    vstd::arithmetic::div_mod::lemma_div_pos_is_pos(np, dp);
}

/// A larger input never buys a smaller output.
proof fn lemma_out_monotone(x: u128, y: u128, r0: u128, r1: u128)
    requires
        0 < x <= y,
        r0 > 0,
        r1 > 0,
    ensures
        spec_out_amount(x, r0, r1) <= spec_out_amount(y, r0, r1),
{
    let nx = (x * 997) * (r1 as int);
    let dx = r0 * 1000 + x * 997;
    let ny = (y * 997) * (r1 as int);
    let dy = r0 * 1000 + y * 997;
    lemma_out_denominator_fits(x, r0);
    lemma_out_denominator_fits(y, r0);
    assert(nx >= 0) by {
        vstd::arithmetic::mul::lemma_mul_nonnegative(x * 997, r1 as int);
    }
    lemma_div_mul_le(nx, dx);
    let qx = nx / dx;
    lemma_mul_div_le_factor(x * 997, r1 as int, dx);
    assert(qx * dy <= ny) by (nonlinear_arith)
        requires
            qx * dx <= nx,
            0 <= qx <= r1,
            x <= y,
            nx == (x * 997) * r1,
            ny == (y * 997) * r1,
            dx == r0 * 1000 + x * 997,
            dy == r0 * 1000 + y * 997,
            r0 > 0,
            r1 > 0,
            x > 0,
    ;
    lemma_div_at_least(ny, dy, qx);
}

/// Growing the input cannot shrink the 256-bit overflow guard product.
proof fn lemma_overflow_guard_monotone(x: u128, y: u128, r1: u128)
    requires
        x <= y,
    ensures
        x * 997 * r1 <= y * 997 * r1,
{
    vstd::arithmetic::mul::lemma_mul_inequality(x as int, y as int, 997);
    vstd::arithmetic::mul::lemma_mul_inequality(x * 997, y * 997, r1 as int);
}

/// Round trip, exact-output direction: paying the quoted input for a desired
/// output yields at least that output. This direction holds for every input
/// on which both calculations succeed — the `+ 1` in the input formula
/// rounds in the protocol's favor.
pub proof fn lemma_round_trip_exact_out(
    out_amount: u128,
    reserve: (u128, u128),
    in_amt: u128,
    back: u128,
)
    requires
        spec_calculate_in_amount(out_amount, reserve) == Ok::<u128, Error>(in_amt),
        spec_calculate_out_amount(in_amt, reserve) == Ok::<u128, Error>(back),
    ensures
        back >= out_amount,
{
    let r0 = reserve.0 as int;
    let r1 = reserve.1 as int;
    let o = out_amount as int;
    let np = (r0 * o) * 1000;
    let dp = (r1 - o) * 997;
    assert(np >= 0) by {
        vstd::arithmetic::mul::lemma_mul_nonnegative(r0 * o, 1000);
        vstd::arithmetic::mul::lemma_mul_nonnegative(r0, o);
    }
    assert(dp >= 997) by {
        vstd::arithmetic::mul::lemma_mul_inequality(1, r1 - o, 997);
    }
    let qp = np / dp;
    vstd::arithmetic::div_mod::lemma_div_pos_is_pos(np, dp);
    assert(in_amt == qp + 1);
    let i = in_amt as int;
    vstd::arithmetic::div_mod::lemma_fundamental_div_mod(np, dp);
    vstd::arithmetic::div_mod::lemma_mod_bound(np, dp);
    assert(i * dp > np) by (nonlinear_arith)
        requires
            i == qp + 1,
            np == dp * qp + (np % dp),
            0 <= np % dp < dp,
    ;
    let n = (i * 997) * r1;
    let d = r0 * 1000 + i * 997;
    assert(o * d <= n) by (nonlinear_arith)
        requires
            i * dp > np,
            dp == (r1 - o) * 997,
            np == (r0 * o) * 1000,
            n == (i * 997) * r1,
            d == r0 * 1000 + i * 997,
            o >= 0,
            i >= 0,
            r0 > 0,
            r1 > 0,
            o < r1,
    ;
    lemma_out_denominator_fits(in_amt, reserve.0);
    lemma_div_at_least(n, d, o);
    lemma_mul_div_le_factor(i * 997, r1, d);
    vstd::arithmetic::div_mod::lemma_div_pos_is_pos(n, d);
    assert(n >= 0) by {
        vstd::arithmetic::mul::lemma_mul_nonnegative(i * 997, r1);
    }
}

/// Round trip, exact-input direction: quoting the input for the output that
/// `in_amount` bought costs at least `in_amount` — except where `in_amount`
/// overpaid, that is where one token less would already have bought the very
/// same output.
pub proof fn lemma_round_trip_exact_in(
    in_amount: u128,
    reserve: (u128, u128),
    out_amt: u128,
    back: u128,
)
    requires
        spec_calculate_out_amount(in_amount, reserve) == Ok::<u128, Error>(out_amt),
        spec_calculate_in_amount(out_amt, reserve) == Ok::<u128, Error>(back),
    ensures
        back >= in_amount || spec_calculate_out_amount((in_amount - 1) as u128, reserve) == Ok::<
            u128,
            Error,
        >(out_amt),
{
    let r0 = reserve.0;
    let r1 = reserve.1;
    if back < in_amount {
        let o = out_amt as int;
        let np = (r0 as int * o) * 1000;
        let dp = (r1 - out_amt) * 997;
        assert(np >= 0) by {
            vstd::arithmetic::mul::lemma_mul_nonnegative(r0 as int * o, 1000);
            vstd::arithmetic::mul::lemma_mul_nonnegative(r0 as int, o);
        }
        assert(dp >= 997) by {
            vstd::arithmetic::mul::lemma_mul_inequality(1, r1 - out_amt, 997);
        }
        vstd::arithmetic::div_mod::lemma_div_pos_is_pos(np, dp);
        assert(back >= 1);
        assert(in_amount >= 2);
        let prev = (in_amount - 1) as u128;
        // The output calculation succeeds for every input below `in_amount`.
        lemma_overflow_guard_monotone(back, in_amount, r1);
        lemma_overflow_guard_monotone(prev, in_amount, r1);
        lemma_out_amount_in_range(back, reserve);
        lemma_out_amount_in_range(prev, reserve);
        lemma_out_amount_in_range(in_amount, reserve);
        let ob = spec_out_amount(back, r0, r1) as u128;
        assert(spec_calculate_out_amount(back, reserve) == Ok::<u128, Error>(ob));
        lemma_round_trip_exact_out(out_amt, reserve, back, ob);
        lemma_out_monotone(back, prev, r0, r1);
        lemma_out_monotone(prev, in_amount, r0, r1);
        assert(spec_out_amount(prev, r0, r1) == out_amt);
    }
}

/// When the quotient's limbs show a value of at least `u128::MAX`, the
/// rounded-up input amount exceeds 128 bits.
proof fn lemma_in_amount_overflow(v: int, lo: int, hi: int)
    requires
        v == hi * crate::u256::pow2_128() + lo,
        0 <= lo <= u128::MAX,
        0 <= hi,
        hi > 0 || lo == u128::MAX,
    ensures
        v + 1 > u128::MAX,
{
    if hi > 0 {
        assert(hi * crate::u256::pow2_128() >= crate::u256::pow2_128()) by {
            vstd::arithmetic::mul::lemma_mul_inequality(1, hi, crate::u256::pow2_128());
        }
    }
}

} // verus!
