//! Signed fixed-point numbers with 32 fractional bits.
//!
//! A [`Fixed`] stores the value `raw / 2^32` in a 64-bit integer. All
//! operations saturate at the `i64` range instead of overflowing, and every
//! operation's result is pinned exactly by its contract, so higher layers can
//! describe whole signal chains as formulas over raw values.

use vstd::prelude::*;

verus! {

use vstd::arithmetic::div_mod::{
    lemma_div_is_ordered,
    lemma_div_multiples_vanish,
    lemma_div_pos_is_pos,
    lemma_fundamental_div_mod,
};
use vstd::arithmetic::mul::lemma_mul_inequality;

/// Scale factor of a [`Fixed`] value: 2^32.
pub const FIXED_SCALE: i64 = 0x1_0000_0000;

/// A signed fixed-point number representing `raw / 2^32`.
#[derive(Clone, Copy, Debug, PartialEq, Eq, Structural)]
pub struct Fixed {
    pub raw: i64,
}

/// Clamps a mathematical integer into the `i64` range.
pub open spec fn sat64(x: int) -> int {
    if x > i64::MAX {
        i64::MAX as int
    } else if x < i64::MIN {
        i64::MIN as int
    } else {
        x
    }
}

/// Division of `n` by a positive `d`, rounding toward zero.
pub open spec fn div_trunc(n: int, d: int) -> int {
    if n >= 0 {
        n / d
    } else {
        -((-n) / d)
    }
}

/// Raw result of multiplying two fixed-point values: the product rescaled by
/// 2^32 (rounded toward zero) and saturated.
pub open spec fn fmul_raw(a: int, b: int) -> int {
    sat64(div_trunc(a * b, FIXED_SCALE as int))
}

/// Raw result of dividing one fixed-point value by a positive one: the
/// quotient rescaled by 2^32 (rounded toward zero) and saturated.
pub open spec fn fdiv_raw(a: int, b: int) -> int {
    sat64(div_trunc(a * (FIXED_SCALE as int), b))
}

/// Rounds a raw fixed-point value down to the nearest integer multiple of the
/// scale; this is the floor for non-negative values, which is the only range
/// callers use it on.
pub open spec fn fint_part(a: int) -> int {
    div_trunc(a, FIXED_SCALE as int)
}

/// The product of two non-negative fixed-point values is non-negative.
pub proof fn lemma_fmul_raw_nonneg(a: int, b: int)
    requires
        a >= 0,
        b >= 0,
    ensures
        fmul_raw(a, b) >= 0,
{
    assert(a * b >= 0) by (nonlinear_arith)
        requires
            a >= 0,
            b >= 0,
    ;
    lemma_div_pos_is_pos(a * b, FIXED_SCALE as int);
}

/// Dividing a progress value by a strictly larger positive duration gives a
/// fraction in [0, 1].
pub proof fn lemma_fdiv_unit(e: int, d: int)
    requires
        0 <= e < d,
    ensures
        0 <= fdiv_raw(e, d) <= FIXED_SCALE,
{
    let s = FIXED_SCALE as int;
    lemma_mul_inequality(0, e, s);
    lemma_div_pos_is_pos(e * s, d);
    lemma_mul_inequality(e, d, s);
    lemma_div_is_ordered(e * s, d * s, d);
    lemma_div_multiples_vanish(s, d);
}

/// The product of two `i64`-range factors stays well inside the `i128` range.
proof fn lemma_i64_product_in_i128(a: int, b: int)
    requires
        i64::MIN <= a <= i64::MAX,
        i64::MIN <= b <= i64::MAX,
    ensures
        i128::MIN < a * b < i128::MAX,
{
    assert(i128::MIN < a * b < i128::MAX) by (nonlinear_arith)
        requires
            -0x8000_0000_0000_0000 <= a <= 0x7fff_ffff_ffff_ffff,
            -0x8000_0000_0000_0000 <= b <= 0x7fff_ffff_ffff_ffff,
    ;
}

/// Division of a non-negative `n: i128` by a positive `d`, rounding toward
/// zero; exact building block for the saturating fixed-point operations.
fn div_trunc_i128(n: i128, d: i128) -> (r: i128)
    requires
        d > 0,
        n > i128::MIN,
    ensures
        r == div_trunc(n as int, d as int),
        n >= 0 ==> 0 <= r <= n,
        n < 0 ==> n <= r <= 0,
{
    if n >= 0 {
        let mag: u128 = n as u128;
        let q: u128 = mag / (d as u128);
        q as i128
    } else {
        let mag: u128 = (-n) as u128;
        let q: u128 = mag / (d as u128);
        -(q as i128)
    }
}

/// Saturates an `i128` into the `i64` range.
pub fn sat_to_i64(x: i128) -> (r: i64)
    ensures
        r as int == sat64(x as int),
{
    if x > i64::MAX as i128 {
        i64::MAX
    } else if x < i64::MIN as i128 {
        i64::MIN
    } else {
        x as i64
    }
}

impl Fixed {
    /// The value 0.
    pub fn zero() -> (r: Fixed)
        ensures
            r.raw == 0,
    {
        Fixed { raw: 0 }
    }

    /// The value 1.
    pub fn one() -> (r: Fixed)
        ensures
            r.raw == FIXED_SCALE,
    {
        Fixed { raw: FIXED_SCALE }
    }

    /// The fixed-point value of a small integer.
    pub fn from_int(n: i32) -> (r: Fixed)
        ensures
            r.raw == n * (FIXED_SCALE as int),
    {
        Fixed { raw: (n as i64) * FIXED_SCALE }
    }

    /// The fixed-point value of the ratio `num / den`, rounded toward zero.
    pub fn from_ratio(num: i64, den: i64) -> (r: Fixed)
        requires
            den > 0,
        ensures
            r.raw == sat64(div_trunc(num * (FIXED_SCALE as int), den as int)),
    {
        proof {
            lemma_i64_product_in_i128(num as int, FIXED_SCALE as int);
        }
        let p: i128 = (num as i128) * (FIXED_SCALE as i128);
        let q = div_trunc_i128(p, den as i128);
        Fixed { raw: sat_to_i64(q) }
    }

    /// Saturating addition.
    pub fn fadd(self, rhs: Fixed) -> (r: Fixed)
        ensures
            r.raw == sat64(self.raw + rhs.raw),
    {
        match self.raw.checked_add(rhs.raw) {
            Some(v) => Fixed { raw: v },
            None => {
                if self.raw >= 0 {
                    Fixed { raw: i64::MAX }
                } else {
                    Fixed { raw: i64::MIN }
                }
            },
        }
    }

    /// Saturating subtraction.
    pub fn fsub(self, rhs: Fixed) -> (r: Fixed)
        ensures
            r.raw == sat64(self.raw - rhs.raw),
    {
        match self.raw.checked_sub(rhs.raw) {
            Some(v) => Fixed { raw: v },
            None => {
                if self.raw >= 0 {
                    Fixed { raw: i64::MAX }
                } else {
                    Fixed { raw: i64::MIN }
                }
            },
        }
    }

    /// Saturating negation.
    pub fn fneg(self) -> (r: Fixed)
        ensures
            r.raw == sat64(-self.raw),
    {
        if self.raw == i64::MIN {
            Fixed { raw: i64::MAX }
        } else {
            Fixed { raw: -self.raw }
        }
    }

    /// Saturating fixed-point multiplication, rounded toward zero.
    pub fn fmul(self, rhs: Fixed) -> (r: Fixed)
        ensures
            r.raw == fmul_raw(self.raw as int, rhs.raw as int),
    {
        proof {
            lemma_i64_product_in_i128(self.raw as int, rhs.raw as int);
        }
        let p: i128 = (self.raw as i128) * (rhs.raw as i128);
        let q = div_trunc_i128(p, FIXED_SCALE as i128);
        Fixed { raw: sat_to_i64(q) }
    }

    /// Saturating fixed-point division by a positive value, rounded toward
    /// zero.
    pub fn fdiv(self, rhs: Fixed) -> (r: Fixed)
        requires
            rhs.raw > 0,
        ensures
            r.raw == fdiv_raw(self.raw as int, rhs.raw as int),
    {
        proof {
            lemma_i64_product_in_i128(self.raw as int, FIXED_SCALE as int);
        }
        let p: i128 = (self.raw as i128) * (FIXED_SCALE as i128);
        let q = div_trunc_i128(p, rhs.raw as i128);
        Fixed { raw: sat_to_i64(q) }
    }

    /// The integer part of a non-negative value.
    pub fn int_part(self) -> (r: i64)
        requires
            self.raw >= 0,
        ensures
            r == fint_part(self.raw as int),
            0 <= r <= self.raw,
            r * FIXED_SCALE <= self.raw,
            self.raw - r * FIXED_SCALE < FIXED_SCALE,
    {
        proof {
            lemma_fundamental_div_mod(self.raw as int, FIXED_SCALE as int);
        }
        self.raw / FIXED_SCALE
    }

    /// The absolute value, saturated.
    pub fn fabs(self) -> (r: Fixed)
        ensures
            r.raw == sat64(if self.raw < 0 { -self.raw as int } else { self.raw as int }),
    {
        if self.raw < 0 {
            self.fneg()
        } else {
            self
        }
    }

    /// Whether this value is at least `rhs`.
    pub fn at_least(self, rhs: Fixed) -> (r: bool)
        ensures
            r == (self.raw >= rhs.raw),
    {
        self.raw >= rhs.raw
    }
}

} // verus!
