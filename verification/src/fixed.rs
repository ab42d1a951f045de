//! Signed decimal fixed-point numbers with nine fractional digits.
//!
//! A [`Fixed`] stores a quantity as a count of billionths in an `i64`, so the
//! representable range is roughly ±9.22e9 units. Every operation is total:
//! results that leave the range saturate at the nearest bound, and products
//! are rounded to the nearest count, ties away from zero.
//!
//! Contracts speak of the raw count as a mathematical integer, `x@`.

use vstd::prelude::*;

verus! {

/// Number of raw counts in one unit.
pub const SCALE: i64 = 1_000_000_000;

/// Half of [`SCALE`]: the rounding offset of a product, and the raw count of one half.
pub const HALF_SCALE: i64 = 500_000_000;

/// A fixed-point number; `raw` counts billionths of a unit.
#[derive(Clone, Copy, Debug, PartialEq, Eq, Structural)]
pub struct Fixed {
    pub raw: i64,
}

impl View for Fixed {
    type V = int;

    open spec fn view(&self) -> int {
        self.raw as int
    }
}

/// `x` is a raw count that a [`Fixed`] can hold.
pub open spec fn fits(x: int) -> bool {
    i64::MIN <= x <= i64::MAX
}

/// The nearest value to `x` that an `i64` can hold.
pub open spec fn saturate(x: int) -> int {
    if x < i64::MIN {
        i64::MIN as int
    } else if x > i64::MAX {
        i64::MAX as int
    } else {
        x
    }
}

/// Brings the product of two raw counts, which carries the scale twice, back
/// to a raw count: `p / SCALE` rounded to the nearest integer, ties away from zero.
pub open spec fn rescale(p: int) -> int {
    if p >= 0 {
        (p + HALF_SCALE) / (SCALE as int)
    } else {
        -((-p + HALF_SCALE) / (SCALE as int))
    }
}

/// Saturating sum of two raw counts.
pub open spec fn sat_add(a: int, b: int) -> int {
    saturate(a + b)
}

/// Saturating difference of two raw counts.
pub open spec fn sat_sub(a: int, b: int) -> int {
    saturate(a - b)
}

/// Rounded, saturating fixed-point product of two raw counts.
pub open spec fn sat_mul(a: int, b: int) -> int {
    saturate(rescale(a * b))
}

/// `x` limited to the closed interval from `lo` to `hi`; `lo` wins where the
/// bounds cross.
pub open spec fn limit(x: int, lo: int, hi: int) -> int {
    if x < lo {
        lo
    } else if x > hi {
        hi
    } else {
        x
    }
}

/// `rescale` is odd, so both signs round alike, and it keeps the sign of its
/// argument.
pub proof fn lemma_rescale_sign(p: int)
    ensures
        rescale(-p) == -rescale(p),
        p >= 0 ==> rescale(p) >= 0,
        p <= 0 ==> rescale(p) <= 0,
{
}

/// A fixed-point product that does not saturate is the raw count nearest to
/// the exact product: the two differ by at most half a count.
pub proof fn lemma_sat_mul_is_nearest(a: int, b: int)
    requires
        fits(rescale(a * b)),
    ensures
        -HALF_SCALE <= sat_mul(a, b) * SCALE - a * b <= HALF_SCALE,
{
}

/// Multiplying by one changes nothing.
pub proof fn lemma_sat_mul_one(x: int)
    requires
        fits(x),
    ensures
        sat_mul(x, SCALE as int) == x,
        sat_mul(SCALE as int, x) == x,
{
    assert(SCALE * x == x * SCALE) by (nonlinear_arith);
}

/// The sign of a fixed-point product follows the signs of its factors, and a
/// zero factor gives zero.
pub proof fn lemma_sat_mul_sign(a: int, b: int)
    ensures
        sat_mul(a, b) == sat_mul(b, a),
        a == 0 || b == 0 ==> sat_mul(a, b) == 0,
        (a >= 0 && b >= 0) || (a <= 0 && b <= 0) ==> sat_mul(a, b) >= 0,
        (a >= 0 && b <= 0) || (a <= 0 && b >= 0) ==> sat_mul(a, b) <= 0,
{
    assert(a * b == b * a) by (nonlinear_arith);
    assert((a >= 0 && b >= 0) || (a <= 0 && b <= 0) ==> a * b >= 0) by (nonlinear_arith);
    assert((a >= 0 && b <= 0) || (a <= 0 && b >= 0) ==> a * b <= 0) by (nonlinear_arith);
    assert(a == 0 || b == 0 ==> a * b == 0) by (nonlinear_arith);
    lemma_rescale_sign(a * b);
}

/// The product of two `i64` values fits an `i128` with room for the rounding offset.
proof fn lemma_product_fits(a: int, b: int)
    requires
        fits(a),
        fits(b),
    ensures
        -0x4000_0000_0000_0000_0000_0000_0000_0000 <= a * b
            <= 0x4000_0000_0000_0000_0000_0000_0000_0000,
{
    assert(-0x4000_0000_0000_0000_0000_0000_0000_0000 <= a * b
        <= 0x4000_0000_0000_0000_0000_0000_0000_0000) by (nonlinear_arith)
        requires
            -0x8000_0000_0000_0000 <= a <= 0x8000_0000_0000_0000,
            -0x8000_0000_0000_0000 <= b <= 0x8000_0000_0000_0000,
    ;
}

/// Narrows a wide intermediate result to the `i64` range.
fn saturate_wide(x: i128) -> (r: i64)
    ensures
        r == saturate(x as int),
{
    if x > i64::MAX as i128 {
        i64::MAX
    } else if x < i64::MIN as i128 {
        i64::MIN
    } else {
        x as i64
    }
}

impl Fixed {
    /// The number zero.
    pub fn zero() -> (r: Fixed)
        ensures
            r@ == 0,
    {
        Fixed { raw: 0 }
    }

    /// The number one.
    pub fn one() -> (r: Fixed)
        ensures
            r@ == SCALE,
    {
        Fixed { raw: SCALE }
    }

    /// The number one half.
    pub fn half() -> (r: Fixed)
        ensures
            r@ == HALF_SCALE,
    {
        Fixed { raw: HALF_SCALE }
    }

    /// `self + rhs`, saturating at the bounds of the range.
    pub fn saturating_add(self, rhs: Fixed) -> (r: Fixed)
        ensures
            r@ == sat_add(self@, rhs@),
    {
        let wide: i128 = self.raw as i128 + rhs.raw as i128;
        Fixed { raw: saturate_wide(wide) }
    }

    /// `self - rhs`, saturating at the bounds of the range.
    pub fn saturating_sub(self, rhs: Fixed) -> (r: Fixed)
        ensures
            r@ == sat_sub(self@, rhs@),
    {
        let wide: i128 = self.raw as i128 - rhs.raw as i128;
        Fixed { raw: saturate_wide(wide) }
    }

    /// `self * rhs`, rounded to the nearest count (ties away from zero) and
    /// saturating at the bounds of the range.
    pub fn saturating_mul(self, rhs: Fixed) -> (r: Fixed)
        ensures
            r@ == sat_mul(self@, rhs@),
    {
        proof {
            lemma_product_fits(self@, rhs@);
        }
        let product: i128 = (self.raw as i128) * (rhs.raw as i128);
        let rounded: i128 = if product >= 0 {
            (product + HALF_SCALE as i128) / (SCALE as i128)
        } else {
            -((-product + HALF_SCALE as i128) / (SCALE as i128))
        };
        Fixed { raw: saturate_wide(rounded) }
    }

    /// The larger of `self` and `other`.
    pub fn max(self, other: Fixed) -> (r: Fixed)
        ensures
            r@ == vstd::math::max(self@, other@),
    {
        if self.raw >= other.raw {
            self
        } else {
            other
        }
    }

    /// `self` limited to the closed interval from `lo` to `hi`.
    pub fn clamp(self, lo: Fixed, hi: Fixed) -> (r: Fixed)
        ensures
            r@ == limit(self@, lo@, hi@),
    {
        if self.raw < lo.raw {
            lo
        } else if self.raw > hi.raw {
            hi
        } else {
            self
        }
    }
}

} // verus!
