//! A 256-bit unsigned amount, the width the pool uses for liquidity shares,
//! cumulative prices and wide arithmetic intermediates.
//!
//! The value is held as two 128-bit limbs, so contracts can speak about it as
//! the plain integer `hi * 2^128 + lo`. Linear operations (comparison,
//! addition, subtraction) are implemented and verified here; the nonlinear
//! ones (multiplication, division, square root) call `primitive_types::U256`
//! behind trusted wrappers whose contracts state the exact integer result.

use vstd::prelude::*;

verus! {

/// `2^128`, the weight of the high limb.
pub open spec fn pow2_128() -> int {
    0x100000000000000000000000000000000int
}

/// `2^256`, the first integer a [`U256`] cannot hold.
pub open spec fn pow2_256() -> int {
    0x10000000000000000000000000000000000000000000000000000000000000000int
}

/// `r` is the integer square root of `x`.
pub open spec fn is_sqrt(r: int, x: int) -> bool {
    0 <= r && r * r <= x && x < (r + 1) * (r + 1)
}

/// The integer square root, pinned by [`is_sqrt`]'s unique solution.
pub open spec fn spec_sqrt(x: int) -> int {
    choose|r: int| is_sqrt(r, x)
}

/// Any root satisfying [`is_sqrt`] is the [`spec_sqrt`].
pub proof fn lemma_sqrt_unique(r: int, x: int)
    requires
        is_sqrt(r, x),
    ensures
        spec_sqrt(x) == r,
{
    assert(exists|q: int| is_sqrt(q, x)) by {
        assert(is_sqrt(r, x));
    }
    let rr = spec_sqrt(x);
    assert(is_sqrt(rr, x));
    assert(rr == r) by (nonlinear_arith)
        requires
            is_sqrt(rr, x),
            is_sqrt(r, x),
    ;
}

/// An unsigned 256-bit integer: `hi * 2^128 + lo`.
#[derive(Clone, Copy, PartialEq, Eq, Structural, Debug)]
pub struct U256 {
    pub lo: u128,
    pub hi: u128,
}

impl U256 {
    /// The mathematical value of this number.
    pub open spec fn val(self) -> int {
        self.hi * pow2_128() + self.lo
    }

    /// Every value the two limbs can hold lies below `2^256`.
    pub proof fn lemma_val_bound(v: U256)
        ensures
            0 <= v.val() < pow2_256(),
    {
    }

    pub fn zero() -> (r: Self)
        ensures
            r.val() == 0,
    {
        U256 { lo: 0, hi: 0 }
    }

    pub fn from_u128(x: u128) -> (r: Self)
        ensures
            r.val() == x,
    {
        U256 { lo: x, hi: 0 }
    }

    pub fn from_u64(x: u64) -> (r: Self)
        ensures
            r.val() == x,
    {
        U256 { lo: x as u128, hi: 0 }
    }

    /// The value shifted left by 128 bits: `x * 2^128`.
    pub fn shl_128(x: u128) -> (r: Self)
        ensures
            r.val() == x * pow2_128(),
    {
        U256 { lo: 0, hi: x }
    }

    pub fn is_zero(&self) -> (r: bool)
        ensures
            r == (self.val() == 0),
    {
        self.lo == 0 && self.hi == 0
    }

    /// The low 128 bits; the whole value when `hi` is zero.
    pub fn low_u128(&self) -> (r: u128)
        ensures
            r == self.lo,
            self.hi == 0 ==> r == self.val(),
    {
        self.lo
    }

    pub fn lt(&self, other: &U256) -> (r: bool)
        ensures
            r == (self.val() < other.val()),
    {
        self.hi < other.hi || (self.hi == other.hi && self.lo < other.lo)
    }

    pub fn le(&self, other: &U256) -> (r: bool)
        ensures
            r == (self.val() <= other.val()),
    {
        self.hi < other.hi || (self.hi == other.hi && self.lo <= other.lo)
    }

    /// Sum, for callers that have already ruled overflow out.
    pub fn add(self, other: U256) -> (r: Self)
        requires
            self.val() + other.val() < pow2_256(),
        ensures
            r.val() == self.val() + other.val(),
    {
        match self.checked_add(other) {
            Some(r) => r,
            None => U256 { lo: 0, hi: 0 },
        }
    }

    pub fn checked_add(self, other: U256) -> (r: Option<Self>)
        ensures
            match r {
                Some(v) => self.val() + other.val() < pow2_256() && v.val() == self.val()
                    + other.val(),
                None => self.val() + other.val() >= pow2_256(),
            },
    {
        let (lo, carry) = add_with_carry(self.lo, other.lo);
        let c: u128 = if carry {
            1
        } else {
            0
        };
        if u128::MAX - self.hi >= other.hi {
            let hs = self.hi + other.hi;
            if c <= u128::MAX - hs {
                Some(U256 { lo, hi: hs + c })
            } else {
                None
            }
        } else {
            None
        }
    }

    /// Sum modulo `2^256`.
    pub fn wrapping_add(self, other: U256) -> (r: Self)
        ensures
            r.val() == if self.val() + other.val() < pow2_256() {
                self.val() + other.val()
            } else {
                self.val() + other.val() - pow2_256()
            },
    {
        let (lo, carry) = add_with_carry(self.lo, other.lo);
        let c: u128 = if carry {
            1
        } else {
            0
        };
        let (h1, _) = add_with_carry(self.hi, other.hi);
        let (hi, _) = add_with_carry(h1, c);
        U256 { lo, hi }
    }

    /// Difference, for callers that know the subtrahend is no larger.
    pub fn sub(self, other: U256) -> (r: Self)
        requires
            other.val() <= self.val(),
        ensures
            r.val() == self.val() - other.val(),
    {
        if self.lo >= other.lo {
            U256 { lo: self.lo - other.lo, hi: self.hi - other.hi }
        } else {
            U256 { lo: self.lo + (u128::MAX - other.lo) + 1, hi: self.hi - other.hi - 1 }
        }
    }
}

/// Sum of two limbs and whether it wrapped past `2^128`.
fn add_with_carry(a: u128, b: u128) -> (r: (u128, bool))
    ensures
        r.0 + (if r.1 {
            pow2_128()
        } else {
            0
        }) == a + b,
{
    if a <= u128::MAX - b {
        (a + b, false)
    } else {
        ((a - (u128::MAX - b)) - 1, true)
    }
}

/// Relies on `primitive_types::U256`'s multiplication: the product of two
/// 128-bit values always fits in 256 bits, so the result is exact.
#[verifier::external_body]
pub fn mul_u128(a: u128, b: u128) -> (r: U256)
    ensures
        r.val() == a * b,
{
    let p = primitive_types::U256::from(a) * primitive_types::U256::from(b);
    U256 { lo: p.low_u128(), hi: (p >> 128).low_u128() }
}

/// Relies on `primitive_types::U256::checked_mul`: `Some` exactly when the
/// product fits in 256 bits, and then the exact product.
#[verifier::external_body]
pub fn checked_mul_u128(a: U256, b: u128) -> (r: Option<U256>)
    ensures
        match r {
            Some(v) => a.val() * b < pow2_256() && v.val() == a.val() * b,
            None => a.val() * b >= pow2_256(),
        },
{
    let aw = (primitive_types::U256::from(a.hi) << 128) | primitive_types::U256::from(a.lo);
    let p = aw.checked_mul(primitive_types::U256::from(b))?;
    Some(U256 { lo: p.low_u128(), hi: (p >> 128).low_u128() })
}

/// Relies on `primitive_types::U256`'s division: the exact floor quotient.
#[verifier::external_body]
pub fn div(n: U256, d: U256) -> (r: U256)
    requires
        d.val() > 0,
    ensures
        r.val() == n.val() / d.val(),
{
    let nw = (primitive_types::U256::from(n.hi) << 128) | primitive_types::U256::from(n.lo);
    let dw = (primitive_types::U256::from(d.hi) << 128) | primitive_types::U256::from(d.lo);
    let q = nw / dw;
    U256 { lo: q.low_u128(), hi: (q >> 128).low_u128() }
}

/// Relies on `primitive_types::U256::integer_sqrt`: the unique `r` with
/// `r^2 <= n < (r+1)^2`; it fits in 128 bits because `n < 2^256`.
#[verifier::external_body]
pub fn sqrt(n: U256) -> (r: u128)
    ensures
        r * r <= n.val() < (r + 1) * (r + 1),
{
    let nw = (primitive_types::U256::from(n.hi) << 128) | primitive_types::U256::from(n.lo);
    nw.integer_sqrt().low_u128()
}

/// Relies on `primitive_types::U256::overflowing_mul`: the product modulo
/// `2^256`.
#[verifier::external_body]
pub fn wrapping_mul_u64(a: U256, b: u64) -> (r: U256)
    ensures
        r.val() == (a.val() * b) % pow2_256(),
{
    let aw = (primitive_types::U256::from(a.hi) << 128) | primitive_types::U256::from(a.lo);
    let p = aw.overflowing_mul(primitive_types::U256::from(b)).0;
    U256 { lo: p.low_u128(), hi: (p >> 128).low_u128() }
}

} // verus!
