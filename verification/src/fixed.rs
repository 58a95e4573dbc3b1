//! Fixed-point scalars.
//!
//! Every quantity of the simulation (coordinates, speeds, sizes, colour
//! channels, blend factors and normalised time) is a signed 64-bit integer
//! counting millionths: the raw value `1_000_000` stands for one. Elapsed time
//! is an unsigned count of microseconds, so a second is one in the same scale.
//! Results that leave the 64-bit range stick at the nearest bound.

use vstd::prelude::*;

verus! {

/// Raw units per whole unit.
pub const SCALE: i64 = 1_000_000;

/// The nearest value to `x` that a 64-bit signed integer can hold.
pub open spec fn saturate(x: int) -> i64 {
    if x < i64::MIN {
        i64::MIN
    } else if x > i64::MAX {
        i64::MAX
    } else {
        x as i64
    }
}

/// The product of two fixed-point values, rounded down to a whole raw unit.
pub open spec fn scaled(a: int, b: int) -> int {
    (a * b) / (SCALE as int)
}

/// Saturating fixed-point sum.
pub open spec fn fx_add(a: int, b: int) -> i64 {
    saturate(a + b)
}

/// Saturating fixed-point product.
pub open spec fn fx_mul(a: int, b: int) -> i64 {
    saturate(scaled(a, b))
}

/// `base + rate * amount`, saturated once at the end.
pub open spec fn fx_mul_add(base: int, rate: int, amount: int) -> i64 {
    saturate(base + scaled(rate, amount))
}

/// The point a fraction `t` of the way from `a` to `b`; `t` is not clamped.
pub open spec fn fx_lerp(a: int, b: int, t: int) -> i64 {
    saturate(a + scaled(b - a, t))
}

/// Magnitude of `x`, where the magnitude of the least value sticks at the greatest.
pub open spec fn fx_abs(x: int) -> i64 {
    saturate(if x >= 0 { x } else { -x })
}

/// `t` limited to the unit interval.
pub open spec fn clamp_unit(t: int) -> i64 {
    if t < 0 {
        0
    } else if t > SCALE {
        SCALE
    } else {
        t as i64
    }
}

/// A product is bounded by the product of the bounds of its factors.
pub proof fn lemma_product_bound(a: int, b: int, ma: int, mb: int)
    requires
        -ma <= a <= ma,
        -mb <= b <= mb,
    ensures
        -(ma * mb) <= a * b <= ma * mb,
{
    assert(-(ma * mb) <= a * b <= ma * mb) by (nonlinear_arith)
        requires
            -ma <= a <= ma,
            -mb <= b <= mb,
    ;
}

/// Scaling by a fraction in the unit interval moves a non-negative distance
/// toward zero, never past it.
pub proof fn lemma_scaled_fraction(d: int, t: int)
    requires
        0 <= t <= SCALE,
    ensures
        d >= 0 ==> 0 <= scaled(d, t) <= d,
        d <= 0 ==> d <= scaled(d, t) <= 0,
{
    let s = SCALE as int;
    if d >= 0 {
        assert(0 <= d * t <= d * s) by (nonlinear_arith)
            requires
                0 <= t <= s,
                d >= 0,
        ;
    } else {
        assert(d * s <= d * t <= 0) by (nonlinear_arith)
            requires
                0 <= t <= s,
                d <= 0,
        ;
    }
}

/// A blend with factor zero is the first end, with factor one the second.
pub proof fn lemma_lerp_ends(a: int, b: int)
    requires
        i64::MIN <= a <= i64::MAX,
        i64::MIN <= b <= i64::MAX,
    ensures
        fx_lerp(a, b, 0) == a,
        fx_lerp(a, b, SCALE as int) == b,
{
    let s = SCALE as int;
    assert((b - a) * 0 == 0);
    assert(((b - a) * s) / s == b - a) by (nonlinear_arith)
        requires
            s == 1_000_000,
    ;
}

/// A blend with a factor in the unit interval lies between its two ends.
pub proof fn lemma_lerp_between(a: int, b: int, t: int)
    requires
        i64::MIN <= a <= i64::MAX,
        i64::MIN <= b <= i64::MAX,
        0 <= t <= SCALE,
    ensures
        a <= b ==> a <= fx_lerp(a, b, t) <= b,
        b <= a ==> b <= fx_lerp(a, b, t) <= a,
{
    lemma_scaled_fraction(b - a, t);
}

/// A blend does not move backwards when its factor grows.
pub proof fn lemma_lerp_monotonic(a: int, b: int, t1: int, t2: int)
    requires
        t1 <= t2,
    ensures
        a <= b ==> fx_lerp(a, b, t1) <= fx_lerp(a, b, t2),
        b <= a ==> fx_lerp(a, b, t1) >= fx_lerp(a, b, t2),
{
    let d = b - a;
    if d == 0 {
        assert(d * t1 == 0 && d * t2 == 0);
    } else if d > 0 {
        assert(d * t1 <= d * t2) by (nonlinear_arith)
            requires
                d >= 0,
                t1 <= t2,
        ;
    } else {
        assert(d * t1 >= d * t2) by (nonlinear_arith)
            requires
                d <= 0,
                t1 <= t2,
        ;
    }
}

/// The scaled product of two 64-bit values stays far inside the 128-bit range.
pub proof fn lemma_scaled_magnitude(a: int, b: int)
    requires
        i64::MIN <= a <= i64::MAX,
        i64::MIN <= b <= i64::MAX,
    ensures
        -0x4000_0000_0000_0000_0000_0000_0000 <= scaled(a, b) <= 0x4000_0000_0000_0000_0000_0000_0000,
{
    lemma_product_bound(a, b, 0x8000_0000_0000_0000, 0x8000_0000_0000_0000);
    assert(0x8000_0000_0000_0000int * 0x8000_0000_0000_0000int
        == 0x4000_0000_0000_0000_0000_0000_0000_0000int);
}

/// Narrows a wide intermediate result to 64 bits.
pub fn saturate_i128(x: i128) -> (r: i64)
    ensures
        r == saturate(x as int),
{
    if x < i64::MIN as i128 {
        i64::MIN
    } else if x > i64::MAX as i128 {
        i64::MAX
    } else {
        x as i64
    }
}

/// Divides by a positive divisor, rounding toward negative infinity.
pub(crate) fn floor_div(n: i128, d: i128) -> (q: i128)
    requires
        n > i128::MIN,
        d > 0,
    ensures
        q == (n as int) / (d as int),
{
    if n >= 0 {
        n / d
    } else {
        let m: i128 = -n;
        let below: i128 = (m - 1) / d;
        proof {
            let x = (m - 1) as int;
            let dd = d as int;
            let q0 = x / dd;
            let r0 = x % dd;
            vstd::arithmetic::div_mod::lemma_fundamental_div_mod(x, dd);
            vstd::arithmetic::div_mod::lemma_mod_pos_bound(x, dd);
            assert(n as int == (-(q0 + 1)) * dd + (dd - 1 - r0)) by (nonlinear_arith)
                requires
                    x == dd * q0 + r0,
                    n as int == -(x + 1),
            ;
            vstd::arithmetic::div_mod::lemma_fundamental_div_mod_converse(
                n as int,
                dd,
                -(q0 + 1),
                dd - 1 - r0,
            );
        }
        -(below + 1)
    }
}

/// Divides by the scale, rounding toward negative infinity.
fn floor_div_scale(n: i128) -> (q: i128)
    requires
        n > i128::MIN,
    ensures
        q == (n as int) / (SCALE as int),
{
    floor_div(n, SCALE as i128)
}

/// The exact scaled product of a value of at most 65 bits and one of at most 64.
pub(crate) fn wide_scaled(a: i128, b: i128) -> (r: i128)
    requires
        -0xFFFF_FFFF_FFFF_FFFF <= a <= 0xFFFF_FFFF_FFFF_FFFF,
        -0x8000_0000_0000_0000 <= b <= 0x8000_0000_0000_0000,
    ensures
        r == scaled(a as int, b as int),
        -0x8000_0000_0000_0000_0000_0000_0000 <= r <= 0x8000_0000_0000_0000_0000_0000_0000,
{
    proof {
        lemma_product_bound(a as int, b as int, 0xFFFF_FFFF_FFFF_FFFF, 0x8000_0000_0000_0000);
        assert(0xFFFF_FFFF_FFFF_FFFFint * 0x8000_0000_0000_0000int
            == 0x7FFF_FFFF_FFFF_FFFF_8000_0000_0000_0000int);
    }
    floor_div_scale(a * b)
}

/// Saturating fixed-point sum.
pub fn add_fixed(a: i64, b: i64) -> (r: i64)
    ensures
        r == fx_add(a as int, b as int),
{
    saturate_i128(a as i128 + b as i128)
}

/// Saturating fixed-point product.
pub fn mul_fixed(a: i64, b: i64) -> (r: i64)
    ensures
        r == fx_mul(a as int, b as int),
{
    saturate_i128(wide_scaled(a as i128, b as i128))
}

/// `base + rate * seconds` for a time span given in microseconds.
pub fn advance_fixed(base: i64, rate: i64, micros: u64) -> (r: i64)
    ensures
        r == fx_mul_add(base as int, rate as int, micros as int),
{
    saturate_i128(base as i128 + wide_scaled(micros as i128, rate as i128))
}

/// The point a fraction `t` of the way from `a` to `b`; `t` is not clamped.
pub fn lerp_fixed(a: i64, b: i64, t: i64) -> (r: i64)
    ensures
        r == fx_lerp(a as int, b as int, t as int),
{
    saturate_i128(a as i128 + wide_scaled(b as i128 - a as i128, t as i128))
}

/// Saturating magnitude.
pub fn abs_fixed(x: i64) -> (r: i64)
    ensures
        r == fx_abs(x as int),
{
    if x >= 0 {
        x
    } else if x == i64::MIN {
        i64::MAX
    } else {
        -x
    }
}

/// Limits `t` to the unit interval.
pub fn clamp_unit_fixed(t: i64) -> (r: i64)
    ensures
        r == clamp_unit(t as int),
        0 <= r <= SCALE,
{
    if t < 0 {
        0
    } else if t > SCALE {
        SCALE
    } else {
        t
    }
}

} // verus!
