//! Saturating fixed-point arithmetic.
//!
//! Every physical quantity of the simulation (seconds, metres, amperes,
//! revolutions per minute, ...) is an `i64` that counts millionths of its
//! unit. Sums, products and quotients are computed exactly and then brought
//! back into the range of `i64`: a result beyond either end stays at that end.
//! Quotients round toward zero, so the arithmetic is symmetric about zero.
use vstd::prelude::*;

verus! {

/// Raw units per whole unit.
pub const SCALE: i64 = 1_000_000;

/// `x` brought into the range of `i64`.
pub open spec fn saturate(x: int) -> int {
    if x > i64::MAX {
        i64::MAX as int
    } else if x < i64::MIN {
        i64::MIN as int
    } else {
        x
    }
}

/// The absolute value of `x`.
pub open spec fn magnitude(x: int) -> int {
    if x < 0 {
        -x
    } else {
        x
    }
}

/// `n / d` rounded toward zero.
pub open spec fn quotient(n: int, d: int) -> int
    recommends
        d != 0,
{
    if (n < 0) == (d < 0) {
        magnitude(n) / magnitude(d)
    } else {
        -(magnitude(n) / magnitude(d))
    }
}

/// The saturated sum of two quantities.
pub open spec fn sum(a: int, b: int) -> int {
    saturate(a + b)
}

/// The saturated difference of two quantities.
pub open spec fn difference(a: int, b: int) -> int {
    saturate(a - b)
}

/// The saturated negation of a quantity.
pub open spec fn opposite(a: int) -> int {
    saturate(-a)
}

/// The saturated fixed-point product of two quantities.
#[verifier::opaque]
pub open spec fn product(a: int, b: int) -> int {
    saturate(quotient(a * b, SCALE as int))
}

/// The saturated fixed-point quotient of two quantities.
#[verifier::opaque]
pub open spec fn ratio(a: int, b: int) -> int
    recommends
        b != 0,
{
    saturate(quotient(a * SCALE, b))
}

/// The value at `x` of the straight line through `(x0, y0)` and `(x1, y1)`.
/// Where the two abscissae coincide the line is taken to be constant `y0`.
#[verifier::opaque]
pub open spec fn interpolate(y0: int, y1: int, x: int, x0: int, x1: int) -> int {
    if x1 == x0 {
        y0
    } else {
        saturate(y0 + quotient((y1 - y0) * (x - x0), x1 - x0))
    }
}

/// The smaller of two quantities.
pub open spec fn lesser(a: int, b: int) -> int {
    if a <= b {
        a
    } else {
        b
    }
}

/// `x` held between `low` and `high`; `low` wins where the two cross.
pub open spec fn held(x: int, low: int, high: int) -> int {
    if x < low {
        low
    } else if x > high {
        high
    } else {
        x
    }
}

/// The greater of two quantities.
pub open spec fn greater(a: int, b: int) -> int {
    if a >= b {
        a
    } else {
        b
    }
}

proof fn lemma_magnitude_of_product(a: int, b: int)
    ensures
        magnitude(a * b) == magnitude(a) * magnitude(b),
        (a * b < 0) == (a != 0 && b != 0 && ((a < 0) != (b < 0))),
{
    assert(magnitude(a * b) == magnitude(a) * magnitude(b)) by (nonlinear_arith)
        requires
            magnitude(a) == (if a < 0 { -a } else { a }),
            magnitude(b) == (if b < 0 { -b } else { b }),
            magnitude(a * b) == (if a * b < 0 { -(a * b) } else { a * b }),
    ;
    assert((a * b < 0) == (a != 0 && b != 0 && ((a < 0) != (b < 0)))) by (nonlinear_arith);
}

proof fn lemma_product_bound(a: int, b: int, la: int, lb: int)
    requires
        0 <= a <= la,
        0 <= b <= lb,
    ensures
        0 <= a * b <= la * lb,
{
    assert(0 <= a * b <= la * lb) by (nonlinear_arith)
        requires
            0 <= a <= la,
            0 <= b <= lb,
    ;
}

proof fn lemma_zero_quotient(d: int)
    requires
        d != 0,
    ensures
        quotient(0, d) == 0,
{
    assert(0int / magnitude(d) == 0) by (nonlinear_arith)
        requires
            magnitude(d) > 0,
    ;
}

fn absolute(x: i64) -> (m: u128)
    ensures
        m == magnitude(x as int),
        m <= 0x8000_0000_0000_0000,
{
    if x < 0 {
        (-(x as i128)) as u128
    } else {
        x as u128
    }
}

/// `|a - b|`, exactly.
pub fn distance(a: i64, b: i64) -> (m: u128)
    ensures
        m == magnitude(a - b),
        m <= 0xffff_ffff_ffff_ffff,
{
    let d: i128 = a as i128 - b as i128;
    if d < 0 {
        (-d) as u128
    } else {
        d as u128
    }
}

fn signed(negative: bool, m: u128) -> (r: i64)
    ensures
        r == saturate(
            if negative {
                -(m as int)
            } else {
                m as int
            },
        ),
{
    if negative {
        if m >= 0x8000_0000_0000_0000 {
            i64::MIN
        } else {
            -(m as i64)
        }
    } else {
        if m > 0x7fff_ffff_ffff_ffff {
            i64::MAX
        } else {
            m as i64
        }
    }
}

fn bounded(x: i128) -> (r: i64)
    ensures
        r == saturate(x as int),
{
    if x > i64::MAX as i128 {
        i64::MAX
    } else if x < i64::MIN as i128 {
        i64::MIN
    } else {
        x as i64
    }
}

/// Saturating addition.
pub fn plus(a: i64, b: i64) -> (r: i64)
    ensures
        r == sum(a as int, b as int),
{
    bounded(a as i128 + b as i128)
}

/// Saturating subtraction.
pub fn minus(a: i64, b: i64) -> (r: i64)
    ensures
        r == difference(a as int, b as int),
{
    bounded(a as i128 - b as i128)
}

/// Saturating negation.
pub fn negate(a: i64) -> (r: i64)
    ensures
        r == opposite(a as int),
{
    bounded(-(a as i128))
}

/// Saturating fixed-point multiplication.
pub fn times(a: i64, b: i64) -> (r: i64)
    ensures
        r == product(a as int, b as int),
{
    let ma: u128 = absolute(a);
    let mb: u128 = absolute(b);
    proof {
        reveal(product);
        lemma_product_bound(ma as int, mb as int, 0x8000_0000_0000_0000, 0x8000_0000_0000_0000);
        lemma_magnitude_of_product(a as int, b as int);
    }
    let p: u128 = ma * mb;
    let q: u128 = p / 1_000_000u128;
    let negative: bool = (a < 0) != (b < 0);
    proof {
        if p == 0 {
            lemma_zero_quotient(SCALE as int);
        }
    }
    signed(negative, q)
}

/// Saturating fixed-point division.
pub fn over(a: i64, b: i64) -> (r: i64)
    requires
        b != 0,
    ensures
        r == ratio(a as int, b as int),
{
    let ma: u128 = absolute(a);
    let mb: u128 = absolute(b);
    proof {
        reveal(ratio);
        lemma_product_bound(ma as int, 1_000_000, 0x8000_0000_0000_0000, 1_000_000);
        lemma_magnitude_of_product(a as int, SCALE as int);
    }
    let n: u128 = ma * 1_000_000u128;
    let q: u128 = n / mb;
    let negative: bool = (a < 0) != (b < 0);
    proof {
        if n == 0 {
            lemma_zero_quotient(b as int);
        }
    }
    signed(negative, q)
}

/// Linear interpolation (or extrapolation) along the segment from
/// `(x0, y0)` to `(x1, y1)`.
pub fn blend(y0: i64, y1: i64, x: i64, x0: i64, x1: i64) -> (r: i64)
    ensures
        r == interpolate(y0 as int, y1 as int, x as int, x0 as int, x1 as int),
{
    proof {
        reveal(interpolate);
    }
    if x1 == x0 {
        return y0;
    }
    let rise: u128 = distance(y1, y0);
    let run: u128 = distance(x, x0);
    let span: u128 = distance(x1, x0);
    proof {
        lemma_product_bound(
            rise as int,
            run as int,
            0xffff_ffff_ffff_ffff,
            0xffff_ffff_ffff_ffff,
        );
        lemma_magnitude_of_product(y1 - y0, x - x0);
    }
    let p: u128 = rise * run;
    let q: u128 = p / span;
    let negative: bool = ((y1 < y0) != (x < x0)) != (x1 < x0);
    proof {
        if p == 0 {
            lemma_zero_quotient(x1 - x0);
        }
    }
    if q > 0xffff_ffff_ffff_ffff {
        if negative {
            i64::MIN
        } else {
            i64::MAX
        }
    } else if negative {
        bounded(y0 as i128 - q as i128)
    } else {
        bounded(y0 as i128 + q as i128)
    }
}

/// `x` held between `low` and `high`; `low` wins where the two cross.
pub fn hold(x: i64, low: i64, high: i64) -> (r: i64)
    ensures
        r == held(x as int, low as int, high as int),
{
    if x < low {
        low
    } else if x > high {
        high
    } else {
        x
    }
}

/// The smaller of two quantities.
pub fn smaller(a: i64, b: i64) -> (r: i64)
    ensures
        r == lesser(a as int, b as int),
{
    if a <= b {
        a
    } else {
        b
    }
}

/// Between the ends of a segment the interpolated value lies between the
/// values at its ends.
pub proof fn lemma_interpolate_stays_between(y0: int, y1: int, x: int, x0: int, x1: int)
    requires
        x0 <= x <= x1,
        i64::MIN <= y0 <= i64::MAX,
        i64::MIN <= y1 <= i64::MAX,
    ensures
        y0 <= y1 ==> y0 <= interpolate(y0, y1, x, x0, x1) <= y1,
        y1 <= y0 ==> y1 <= interpolate(y0, y1, x, x0, x1) <= y0,
{
    reveal(interpolate);
    if x1 != x0 {
        let rise = magnitude(y1 - y0);
        let run = x - x0;
        let span = x1 - x0;
        assert(0 <= rise * run <= rise * span) by (nonlinear_arith)
            requires
                0 <= rise,
                0 <= run <= span,
        ;
        assert(0 <= (rise * run) / span <= rise) by (nonlinear_arith)
            requires
                0 <= rise * run <= rise * span,
                span > 0,
        ;
        lemma_magnitude_of_product(y1 - y0, run);
    }
}

} // verus!
