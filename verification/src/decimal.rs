//! Signed decimal numbers held as an unscaled integer and a scale.
//!
//! A [`Decimal`] with unscaled value `u` and scale `s` stands for the number
//! `u / 10^s`. Sums and differences are exact and written at the larger of the
//! two scales; one whose unscaled value does not fit yields `None`. The
//! operands are aligned and added in arbitrary precision, by `bigdecimal`, so
//! that only the result has to fit.

use vstd::prelude::*;
use vstd::arithmetic::power::pow;
use vstd::arithmetic::power::lemma_pow_positive;
use bigdecimal::num_bigint::BigInt;
use bigdecimal::BigDecimal;
use bigdecimal::ToPrimitive;

verus! {

/// The mathematical content of a [`Decimal`]: the number `unscaled / 10^scale`.
pub struct DecimalView {
    pub unscaled: int,
    pub scale: int,
}

impl DecimalView {
    /// The unscaled value of this number once written with `scale` digits
    /// after the point, for a `scale` that is not below its own.
    pub open spec fn aligned(self, scale: int) -> int
        recommends
            scale >= self.scale,
    {
        self.unscaled * pow(10, (scale - self.scale) as nat)
    }

    /// The larger of the two scales.
    pub open spec fn common_scale(self, other: DecimalView) -> int {
        if self.scale >= other.scale {
            self.scale
        } else {
            other.scale
        }
    }

    /// The exact sum, written at the larger of the two scales.
    pub open spec fn plus(self, other: DecimalView) -> DecimalView {
        let s = self.common_scale(other);
        DecimalView { unscaled: self.aligned(s) + other.aligned(s), scale: s }
    }

    /// The exact difference, written at the larger of the two scales.
    pub open spec fn minus(self, other: DecimalView) -> DecimalView {
        let s = self.common_scale(other);
        DecimalView { unscaled: self.aligned(s) - other.aligned(s), scale: s }
    }

    /// The absolute value, at the same scale.
    pub open spec fn magnitude(self) -> DecimalView {
        DecimalView {
            unscaled: if self.unscaled < 0 {
                -self.unscaled
            } else {
                self.unscaled
            },
            scale: self.scale,
        }
    }

    /// The number of digits between the two scales.
    pub open spec fn gap(self, other: DecimalView) -> int {
        if self.scale >= other.scale {
            self.scale - other.scale
        } else {
            other.scale - self.scale
        }
    }
}

/// Whether an unscaled value can be held by a [`Decimal`].
pub open spec fn fits(unscaled: int) -> bool {
    i128::MIN <= unscaled <= i128::MAX
}

/// A signed decimal number: `unscaled / 10^scale`.
#[derive(Clone, Copy, Debug, PartialEq, Eq)]
pub struct Decimal {
    pub unscaled: i128,
    pub scale: i64,
}

impl View for Decimal {
    type V = DecimalView;

    open spec fn view(&self) -> DecimalView {
        DecimalView { unscaled: self.unscaled as int, scale: self.scale as int }
    }
}

impl DecimalView {
    /// The [`Decimal`] that holds this number, for an unscaled value and a
    /// scale that fit.
    pub open spec fn held(self) -> Decimal
        recommends
            fits(self.unscaled),
            i64::MIN <= self.scale <= i64::MAX,
    {
        Decimal { unscaled: self.unscaled as i128, scale: self.scale as i64 }
    }
}

impl Decimal {
    /// The sum, where it fits.
    pub open spec fn sum(self, other: Decimal) -> Option<Decimal> {
        if fits(self@.plus(other@).unscaled) {
            Some(self@.plus(other@).held())
        } else {
            None
        }
    }

    /// The difference, where it fits.
    pub open spec fn difference(self, other: Decimal) -> Option<Decimal> {
        if fits(self@.minus(other@).unscaled) {
            Some(self@.minus(other@).held())
        } else {
            None
        }
    }

    /// The negated number, where it fits.
    pub open spec fn negated(self) -> Option<Decimal> {
        if fits(-self@.unscaled) {
            Some(Decimal { unscaled: (-self.unscaled) as i128, scale: self.scale })
        } else {
            None
        }
    }

    /// The absolute value, where it fits.
    pub open spec fn absolute(self) -> Option<Decimal> {
        if fits(self@.magnitude().unscaled) {
            Some(self@.magnitude().held())
        } else {
            None
        }
    }
}

/// The widest gap between two scales at which a number that is not zero can
/// still be brought to the larger scale: beyond it, `10^gap` alone is
/// larger than any unscaled value, so no sum or difference of such a number
/// fits.
pub const MAX_GAP: u64 = 38;

/// Ten to a power above [`MAX_GAP`] is larger than the whole range of
/// unscaled values.
proof fn lemma_power_beyond_range(gap: nat)
    requires
        gap > MAX_GAP,
    ensures
        pow(10, gap) >= 1_000_000_000_000_000_000_000_000_000_000_000_000_000,
{
    assert(pow(10, 39) == 1_000_000_000_000_000_000_000_000_000_000_000_000_000) by {
        reveal_with_fuel(pow, 40);
    }
    vstd::arithmetic::power::lemma_pow_increases(10, 39, gap);
}

/// A number that is not zero, written `gap` digits further right, is out of
/// reach of any number in range: neither their sum nor either difference
/// fits.
proof fn lemma_far_apart(low: int, high: int, gap: nat)
    requires
        low != 0,
        fits(high),
        gap > MAX_GAP,
    ensures
        !fits(low * pow(10, gap) + high),
        !fits(low * pow(10, gap) - high),
        !fits(high - low * pow(10, gap)),
{
    lemma_power_beyond_range(gap);
    let p = pow(10, gap);
    assert(low >= 1 ==> low * p >= p) by (nonlinear_arith)
        requires
            p >= 0,
    ;
    assert(low <= -1 ==> low * p <= -p) by (nonlinear_arith)
        requires
            p >= 0,
    ;
}

/// Zero stays zero at any scale, and a number at its own scale is written
/// with its own unscaled value.
proof fn lemma_aligned(d: DecimalView, scale: int)
    ensures
        d.unscaled == 0 ==> d.aligned(scale) == 0,
        scale == d.scale ==> d.aligned(scale) == d.unscaled,
{
    vstd::arithmetic::power::lemma_pow0(10);
    let p = pow(10, (scale - d.scale) as nat);
    assert(d.unscaled == 0 ==> d.unscaled * p == 0) by (nonlinear_arith);
    assert(p == 1 ==> d.unscaled * p == d.unscaled) by (nonlinear_arith);
}

/// At one scale, sum and difference are those of the unscaled values.
pub proof fn lemma_same_scale(a: DecimalView, b: DecimalView)
    requires
        a.scale == b.scale,
    ensures
        a.plus(b) == (DecimalView { unscaled: a.unscaled + b.unscaled, scale: a.scale }),
        a.minus(b) == (DecimalView { unscaled: a.unscaled - b.unscaled, scale: a.scale }),
{
    lemma_aligned(a, a.scale);
    lemma_aligned(b, a.scale);
}

/// The number of digits by which `low` lies below `high`.
fn scale_gap(high: i64, low: i64) -> (gap: u64)
    requires
        low <= high,
    ensures
        gap == high - low,
{
    let wide: i128 = high as i128 - low as i128;
    wide as u64
}

/// The sum as `bigdecimal` computes it: `BigDecimal + BigDecimal`, on two
/// values that `BigDecimal::new` makes of the operands' unscaled values and
/// scales, taken apart again by `BigDecimal::into_bigint_and_exponent` and
/// `BigInt::to_i128`.
///
/// Not proved, but taken from that crate: that its sum is written at the
/// larger of the two scales, with the operands' unscaled values brought to
/// that scale and added without loss, and that `to_i128` gives the unscaled
/// value exactly where it fits. The scales are no more than [`MAX_GAP`]
/// apart, since time and memory of that alignment grow with the gap.
#[verifier::external_body]
fn exact_sum(a: &Decimal, b: &Decimal) -> (r: Option<Decimal>)
    requires
        a@.gap(b@) <= MAX_GAP,
    ensures
        r == a.sum(*b),
{
    let sum = BigDecimal::new(BigInt::from(a.unscaled), a.scale) + BigDecimal::new(
        BigInt::from(b.unscaled),
        b.scale,
    );
    let (digits, scale) = sum.into_bigint_and_exponent();
    match digits.to_i128() {
        Some(unscaled) => Some(Decimal { unscaled, scale }),
        None => None,
    }
}

/// The difference as `bigdecimal` computes it: `BigDecimal - BigDecimal`, on
/// two values that `BigDecimal::new` makes of the operands' unscaled values
/// and scales, taken apart again by `BigDecimal::into_bigint_and_exponent`
/// and `BigInt::to_i128`.
///
/// Not proved, but taken from that crate: that the difference of two numbers
/// that are not zero is written at the larger of the two scales, with the
/// operands' unscaled values brought to that scale and subtracted without
/// loss, and that `to_i128` gives the unscaled value exactly where it fits.
/// Where an operand is zero that crate keeps the other operand's scale, so
/// zero is left out here. The scales are no more than [`MAX_GAP`] apart.
#[verifier::external_body]
fn exact_difference(a: &Decimal, b: &Decimal) -> (r: Option<Decimal>)
    requires
        a.unscaled != 0,
        b.unscaled != 0,
        a@.gap(b@) <= MAX_GAP,
    ensures
        r == a.difference(*b),
{
    let difference = BigDecimal::new(BigInt::from(a.unscaled), a.scale) - BigDecimal::new(
        BigInt::from(b.unscaled),
        b.scale,
    );
    let (digits, scale) = difference.into_bigint_and_exponent();
    match digits.to_i128() {
        Some(unscaled) => Some(Decimal { unscaled, scale }),
        None => None,
    }
}

impl Decimal {
    /// The number `unscaled / 10^scale`.
    pub fn new(unscaled: i128, scale: i64) -> (d: Decimal)
        ensures
            d.unscaled == unscaled,
            d.scale == scale,
    {
        Decimal { unscaled, scale }
    }

    /// Zero, with no digits after the point.
    pub fn zero() -> (d: Decimal)
        ensures
            d.unscaled == 0,
            d.scale == 0,
    {
        Decimal { unscaled: 0, scale: 0 }
    }

    /// Whether the number is above zero.
    pub fn is_positive(&self) -> (r: bool)
        ensures
            r == (self@.unscaled > 0),
    {
        self.unscaled > 0
    }

    /// Whether the number is below zero.
    pub fn is_negative(&self) -> (r: bool)
        ensures
            r == (self@.unscaled < 0),
    {
        self.unscaled < 0
    }

    /// The absolute value at the same scale; `None` for the one unscaled
    /// value whose magnitude does not fit.
    pub fn checked_abs(&self) -> (r: Option<Decimal>)
        ensures
            r == self.absolute(),
    {
        if self.unscaled >= 0 {
            Some(*self)
        } else {
            match 0i128.checked_sub(self.unscaled) {
                Some(m) => Some(Decimal { unscaled: m, scale: self.scale }),
                None => None,
            }
        }
    }

    /// The exact sum at the larger of the two scales, or `None` where its
    /// unscaled value does not fit.
    pub fn checked_add(&self, other: &Decimal) -> (r: Option<Decimal>)
        ensures
            r == self.sum(*other),
    {
        let (low, high) = if self.scale <= other.scale {
            (self, other)
        } else {
            (other, self)
        };
        let gap = scale_gap(high.scale, low.scale);
        proof {
            lemma_aligned(low@, high.scale as int);
            lemma_aligned(high@, high.scale as int);
        }
        if gap <= MAX_GAP {
            exact_sum(self, other)
        } else if low.unscaled == 0 {
            Some(*high)
        } else {
            proof {
                lemma_far_apart(low.unscaled as int, high.unscaled as int, gap as nat);
            }
            None
        }
    }

    /// The negated number at the same scale; `None` for the one unscaled
    /// value whose negation does not fit.
    pub fn checked_neg(&self) -> (r: Option<Decimal>)
        ensures
            r == self.negated(),
    {
        match 0i128.checked_sub(self.unscaled) {
            Some(unscaled) => Some(Decimal { unscaled, scale: self.scale }),
            None => None,
        }
    }

    /// The exact difference at the larger of the two scales, or `None` where
    /// its unscaled value does not fit.
    pub fn checked_sub(&self, other: &Decimal) -> (r: Option<Decimal>)
        ensures
            r == self.difference(*other),
    {
        let ghost scale = self@.common_scale(other@);
        proof {
            lemma_aligned(self@, scale);
            lemma_aligned(other@, scale);
        }
        if other.unscaled == 0 {
            // Taking nothing away: the number itself, at the common scale.
            return self.checked_add(other);
        }
        if self.unscaled == 0 {
            // Taking from nothing: the negated subtrahend, at the common scale.
            let ghost shift = pow(10, (scale - other.scale) as nat);
            proof {
                lemma_pow_positive(10, (scale - other.scale) as nat);
            }
            return match other.checked_neg() {
                Some(negated) => {
                    assert(negated.unscaled * shift == -(other.unscaled * shift))
                        by (nonlinear_arith)
                        requires
                            negated.unscaled == -other.unscaled,
                    ;
                    self.checked_add(&negated)
                },
                None => {
                    assert(other.unscaled * shift <= other.unscaled) by (nonlinear_arith)
                        requires
                            shift >= 1,
                            other.unscaled < 0,
                    ;
                    None
                },
            };
        }
        let gap = if self.scale >= other.scale {
            scale_gap(self.scale, other.scale)
        } else {
            scale_gap(other.scale, self.scale)
        };
        if gap <= MAX_GAP {
            exact_difference(self, other)
        } else {
            proof {
                if self.scale >= other.scale {
                    lemma_far_apart(other.unscaled as int, self.unscaled as int, gap as nat);
                } else {
                    lemma_far_apart(self.unscaled as int, other.unscaled as int, gap as nat);
                }
            }
            None
        }
    }
}

} // verus!
