//! Keyframe curves over the unit interval.
//!
//! A curve of `n` keyframes places keyframe `k` at time `k / n` and blends
//! linearly between neighbours; from the last keyframe on, and so at time
//! one, it holds the last keyframe. Times outside the unit interval are
//! clamped to it.

use vstd::prelude::*;
use std::ops::Range;
use crate::fixed::{
    clamp_unit, clamp_unit_fixed, fx_lerp, lemma_lerp_between, lemma_lerp_ends,
    lemma_lerp_monotonic, lerp_fixed, SCALE,
};
use crate::math::{Vec3, Vec4};

verus! {

/// Values that can be blended linearly.
pub trait Lerp: Sized {
    /// The value a fraction `t` of the way from `self` to `other`.
    spec fn lerp_spec(self, other: Self, t: int) -> Self;

    /// Blends from `a` to `b` by the fixed-point factor `t`, which is not clamped.
    fn lerp_unclamped(a: &Self, b: &Self, t: i64) -> (r: Self)
        ensures
            r == a.lerp_spec(*b, t as int),
    ;

    /// A blend with factor zero is its first end.
    proof fn lemma_lerp_at_zero(a: Self, b: Self)
        ensures
            a.lerp_spec(b, 0) == a,
    ;

    /// A blend with factor one is its second end.
    proof fn lemma_lerp_at_one(a: Self, b: Self)
        ensures
            a.lerp_spec(b, SCALE as int) == b,
    ;

    /// Blends from `a` to `b` by the factor `t` limited to the unit interval.
    fn lerp(a: &Self, b: &Self, t: i64) -> (r: Self)
        ensures
            r == a.lerp_spec(*b, clamp_unit(t as int) as int),
    {
        Self::lerp_unclamped(a, b, clamp_unit_fixed(t))
    }
}

impl Lerp for i64 {
    open spec fn lerp_spec(self, other: i64, t: int) -> i64 {
        fx_lerp(self as int, other as int, t)
    }

    fn lerp_unclamped(a: &i64, b: &i64, t: i64) -> (r: i64) {
        lerp_fixed(*a, *b, t)
    }

    proof fn lemma_lerp_at_zero(a: i64, b: i64) {
        lemma_lerp_ends(a as int, b as int);
    }

    proof fn lemma_lerp_at_one(a: i64, b: i64) {
        lemma_lerp_ends(a as int, b as int);
    }
}

impl Lerp for Vec3 {
    open spec fn lerp_spec(self, other: Vec3, t: int) -> Vec3 {
        Vec3 {
            x: fx_lerp(self.x as int, other.x as int, t),
            y: fx_lerp(self.y as int, other.y as int, t),
            z: fx_lerp(self.z as int, other.z as int, t),
        }
    }

    fn lerp_unclamped(a: &Vec3, b: &Vec3, t: i64) -> (r: Vec3) {
        Vec3 { x: lerp_fixed(a.x, b.x, t), y: lerp_fixed(a.y, b.y, t), z: lerp_fixed(a.z, b.z, t) }
    }

    proof fn lemma_lerp_at_zero(a: Vec3, b: Vec3) {
        lemma_lerp_ends(a.x as int, b.x as int);
        lemma_lerp_ends(a.y as int, b.y as int);
        lemma_lerp_ends(a.z as int, b.z as int);
    }

    proof fn lemma_lerp_at_one(a: Vec3, b: Vec3) {
        lemma_lerp_ends(a.x as int, b.x as int);
        lemma_lerp_ends(a.y as int, b.y as int);
        lemma_lerp_ends(a.z as int, b.z as int);
    }
}

impl Lerp for Vec4 {
    open spec fn lerp_spec(self, other: Vec4, t: int) -> Vec4 {
        Vec4 {
            x: fx_lerp(self.x as int, other.x as int, t),
            y: fx_lerp(self.y as int, other.y as int, t),
            z: fx_lerp(self.z as int, other.z as int, t),
            w: fx_lerp(self.w as int, other.w as int, t),
        }
    }

    fn lerp_unclamped(a: &Vec4, b: &Vec4, t: i64) -> (r: Vec4) {
        Vec4 {
            x: lerp_fixed(a.x, b.x, t),
            y: lerp_fixed(a.y, b.y, t),
            z: lerp_fixed(a.z, b.z, t),
            w: lerp_fixed(a.w, b.w, t),
        }
    }

    proof fn lemma_lerp_at_zero(a: Vec4, b: Vec4) {
        lemma_lerp_ends(a.x as int, b.x as int);
        lemma_lerp_ends(a.y as int, b.y as int);
        lemma_lerp_ends(a.z as int, b.z as int);
        lemma_lerp_ends(a.w as int, b.w as int);
    }

    proof fn lemma_lerp_at_one(a: Vec4, b: Vec4) {
        lemma_lerp_ends(a.x as int, b.x as int);
        lemma_lerp_ends(a.y as int, b.y as int);
        lemma_lerp_ends(a.z as int, b.z as int);
        lemma_lerp_ends(a.w as int, b.w as int);
    }
}

/// A pair of a low and a high value blends end by end.
impl<T: Lerp> Lerp for Range<T> {
    open spec fn lerp_spec(self, other: Range<T>, t: int) -> Range<T> {
        Range {
            start: self.start.lerp_spec(other.start, t),
            end: self.end.lerp_spec(other.end, t),
        }
    }

    fn lerp_unclamped(a: &Range<T>, b: &Range<T>, t: i64) -> (r: Range<T>) {
        Range {
            start: T::lerp_unclamped(&a.start, &b.start, t),
            end: T::lerp_unclamped(&a.end, &b.end, t),
        }
    }

    proof fn lemma_lerp_at_zero(a: Range<T>, b: Range<T>) {
        T::lemma_lerp_at_zero(a.start, b.start);
        T::lemma_lerp_at_zero(a.end, b.end);
    }

    proof fn lemma_lerp_at_one(a: Range<T>, b: Range<T>) {
        T::lemma_lerp_at_one(a.start, b.start);
        T::lemma_lerp_at_one(a.end, b.end);
    }
}

/// Index of the keyframe at or before time `t` on a curve of `len` keyframes;
/// `len` for time one.
pub open spec fn segment(len: nat, t: int) -> int {
    (clamp_unit(t) * len) / (SCALE as int)
}

/// How far time `t` lies past the keyframe `segment(len, t)` on the way to the next.
pub open spec fn segment_fraction(len: nat, t: int) -> int {
    (clamp_unit(t) * len) % (SCALE as int)
}

/// The value at time `t` of the curve through the keyframes `keys`.
pub open spec fn curve_value<T: Lerp>(keys: Seq<T>, t: int) -> T {
    if segment(keys.len(), t) >= keys.len() - 1 {
        keys.last()
    } else {
        keys[segment(keys.len(), t)].lerp_spec(
            keys[segment(keys.len(), t) + 1],
            segment_fraction(keys.len(), t),
        )
    }
}

/// A keyframe sequence over the unit interval, never empty.
#[derive(Debug)]
pub struct Curve<T> {
    keyframes: Vec<T>,
}

impl<T> Curve<T> {
    #[verifier::type_invariant]
    spec fn has_keyframes(&self) -> bool {
        self.keyframes@.len() > 0
    }
}

impl<T: Clone> Clone for Curve<T> {
    fn clone(&self) -> (copy: Curve<T>)
        ensures
            copy@.len() == self@.len(),
            forall|i: int| 0 <= i < self@.len() ==> cloned::<T>(#[trigger] self@[i], copy@[i]),
    {
        proof {
            use_type_invariant(self);
        }
        Curve { keyframes: self.keyframes.clone() }
    }
}

impl<T> View for Curve<T> {
    type V = Seq<T>;

    /// The keyframes in order.
    closed spec fn view(&self) -> Seq<T> {
        self.keyframes@
    }
}

impl<T: Lerp> Curve<T> {
    pub open spec fn spec_evaluate(&self, t: i64) -> T {
        curve_value(self@, t as int)
    }

    /// Number of keyframes, which is at least one.
    pub fn len(&self) -> (n: usize)
        ensures
            n == self@.len(),
            n > 0,
    {
        proof {
            use_type_invariant(self);
        }
        self.keyframes.len()
    }

    /// The value of the curve at time `t`.
    #[verifier::when_used_as_spec(spec_evaluate)]
    pub fn evaluate(&self, t: i64) -> (value: T)
        ensures
            value == curve_value(self@, t as int),
    {
        proof {
            use_type_invariant(self);
        }
        let n: usize = self.keyframes.len();
        let u: i64 = clamp_unit_fixed(t);
        assert(0 <= u * n <= 1_000_000 * n) by (nonlinear_arith)
            requires
                0 <= u <= 1_000_000,
                0 <= n,
        ;
        let p: u128 = (u as u128) * (n as u128);
        let i: u128 = p / (SCALE as u128);
        let f: u128 = p % (SCALE as u128);
        if i >= (n - 1) as u128 {
            proof {
                T::lemma_lerp_at_zero(self@.last(), self@.last());
            }
            T::lerp_unclamped(&self.keyframes[n - 1], &self.keyframes[n - 1], 0)
        } else {
            let k: usize = i as usize;
            T::lerp_unclamped(&self.keyframes[k], &self.keyframes[k + 1], f as i64)
        }
    }
}

/// A curve between a low and a high bound: two curves blended by a factor
/// that the caller supplies.
#[derive(Debug, Clone)]
pub struct MinMaxCurve {
    pub min: Curve<i64>,
    pub max: Curve<i64>,
}

impl MinMaxCurve {
    /// `min(t) + lerp_factor * (max(t) - min(t))`.
    pub open spec fn spec_evaluate(&self, t: i64, lerp_factor: i64) -> i64 {
        fx_lerp(
            curve_value(self.min@, t as int) as int,
            curve_value(self.max@, t as int) as int,
            lerp_factor as int,
        )
    }

    /// The value at time `t`, a fraction `lerp_factor` of the way from the low
    /// curve to the high curve.
    #[verifier::when_used_as_spec(spec_evaluate)]
    pub fn evaluate(&self, t: i64, lerp_factor: i64) -> (value: i64)
        ensures
            value == self.spec_evaluate(t, lerp_factor),
    {
        let low: i64 = self.min.evaluate(t);
        let high: i64 = self.max.evaluate(t);
        lerp_fixed(low, high, lerp_factor)
    }
}

/// A curve that holds the pair `value..value` at all times.
pub fn from_constant<T: Lerp + Copy>(value: T) -> (curve: Curve<Range<T>>)
    ensures
        curve@ == seq![value..value],
{
    from_range(value..value)
}

/// A curve that holds the pair `value` at all times.
pub fn from_range<T: Lerp>(value: Range<T>) -> (curve: Curve<Range<T>>)
    ensures
        curve@ == seq![value],
{
    let mut keyframes: Vec<Range<T>> = Vec::new();
    keyframes.push(value);
    assert(keyframes@ =~= seq![value]);
    from_vec(keyframes)
}

/// The pair that starts and ends at `value`.
pub open spec fn constant_range<T>() -> spec_fn(T) -> Range<T> {
    |value: T| value..value
}

/// A curve of pairs whose low and high ends both run through `keyframes`.
pub fn from_constant_vec<T: Lerp + Copy>(keyframes: Vec<T>) -> (curve: Curve<Range<T>>)
    requires
        keyframes.len() > 0,
    ensures
        curve@ == keyframes@.map_values(constant_range::<T>()),
{
    let mut pairs: Vec<Range<T>> = Vec::with_capacity(keyframes.len());
    let mut i: usize = 0;
    while i < keyframes.len()
        invariant
            i <= keyframes.len(),
            pairs@ == keyframes@.subrange(0, i as int).map_values(constant_range::<T>()),
        decreases keyframes.len() - i,
    {
        let value: T = keyframes[i];
        pairs.push(value..value);
        assert(pairs@ =~= keyframes@.subrange(0, i + 1).map_values(constant_range::<T>()));
        i = i + 1;
    }
    assert(keyframes@.subrange(0, keyframes.len() as int) =~= keyframes@);
    from_vec(pairs)
}

/// The curve through `keyframes`.
pub fn from_vec<T: Lerp>(keyframes: Vec<T>) -> (curve: Curve<T>)
    requires
        keyframes.len() > 0,
    ensures
        curve@ == keyframes@,
{
    Curve { keyframes }
}

/// At time zero a curve is at its first keyframe.
pub proof fn lemma_curve_starts_at_first<T: Lerp>(keys: Seq<T>)
    requires
        keys.len() > 0,
    ensures
        curve_value(keys, 0) == keys[0],
{
    assert(0 * keys.len() == 0);
    if keys.len() > 1 {
        T::lemma_lerp_at_zero(keys[0], keys[1]);
    }
}

/// At time one a curve is at its last keyframe.
pub proof fn lemma_curve_ends_at_last<T: Lerp>(keys: Seq<T>)
    requires
        keys.len() > 0,
    ensures
        curve_value(keys, SCALE as int) == keys.last(),
{
    let s = SCALE as int;
    let n = keys.len() as int;
    assert((s * n) / s == n) by (nonlinear_arith)
        requires
            s == 1_000_000,
    ;
}

/// Outside the unit interval a curve holds the value of the nearer end.
pub proof fn lemma_curve_clamps<T: Lerp>(keys: Seq<T>, t: int)
    ensures
        t <= 0 ==> curve_value(keys, t) == curve_value(keys, 0),
        t >= SCALE ==> curve_value(keys, t) == curve_value(keys, SCALE as int),
        curve_value(keys, t) == curve_value(keys, clamp_unit(t) as int),
{
}

/// A curve with one keyframe is constant.
pub proof fn lemma_single_keyframe_constant<T: Lerp>(keys: Seq<T>, t: int)
    requires
        keys.len() == 1,
    ensures
        curve_value(keys, t) == keys[0],
{
    let s = SCALE as int;
    let u = clamp_unit(t) as int;
    assert((u * 1) / s >= 0) by (nonlinear_arith)
        requires
            u >= 0,
            s == 1_000_000,
    ;
}

/// A curve passes through each keyframe at that keyframe's time.
pub proof fn lemma_curve_hits_keyframe<T: Lerp>(keys: Seq<T>, t: int, k: int)
    requires
        0 <= k < keys.len(),
        0 <= t <= SCALE,
        t * keys.len() == k * SCALE,
    ensures
        curve_value(keys, t) == keys[k],
{
    let s = SCALE as int;
    assert((k * s) / s == k && (k * s) % s == 0) by (nonlinear_arith)
        requires
            s == 1_000_000,
    ;
    if k < keys.len() - 1 {
        T::lemma_lerp_at_zero(keys[k], keys[k + 1]);
    }
}

/// Between two neighbouring keyframes a scalar curve stays between their values.
pub proof fn lemma_curve_between_neighbours(keys: Seq<i64>, t: int)
    requires
        keys.len() > 0,
        segment(keys.len(), t) < keys.len() - 1,
    ensures
        0 <= segment(keys.len(), t),
        keys[segment(keys.len(), t)] <= keys[segment(keys.len(), t) + 1] ==> keys[segment(
            keys.len(),
            t,
        )] <= curve_value(keys, t) <= keys[segment(keys.len(), t) + 1],
        keys[segment(keys.len(), t)] >= keys[segment(keys.len(), t) + 1] ==> keys[segment(
            keys.len(),
            t,
        )] >= curve_value(keys, t) >= keys[segment(keys.len(), t) + 1],
{
    let s = SCALE as int;
    let u = clamp_unit(t) as int;
    let n = keys.len() as int;
    assert(u * n >= 0) by (nonlinear_arith)
        requires
            u >= 0,
            n >= 0,
    ;
    let i = segment(keys.len(), t);
    lemma_lerp_between(keys[i] as int, keys[i + 1] as int, segment_fraction(keys.len(), t));
}

/// Between two neighbouring keyframes a scalar curve moves steadily from the
/// one to the other: it rises with time where the second keyframe is the
/// higher and falls where it is the lower.
pub proof fn lemma_curve_monotonic_within_segment(keys: Seq<i64>, t1: int, t2: int)
    requires
        keys.len() > 0,
        t1 <= t2,
        segment(keys.len(), t1) == segment(keys.len(), t2),
        segment(keys.len(), t1) < keys.len() - 1,
    ensures
        0 <= segment(keys.len(), t1),
        keys[segment(keys.len(), t1)] <= keys[segment(keys.len(), t1) + 1] ==> curve_value(keys, t1)
            <= curve_value(keys, t2),
        keys[segment(keys.len(), t1)] >= keys[segment(keys.len(), t1) + 1] ==> curve_value(keys, t1)
            >= curve_value(keys, t2),
{
    let s = SCALE as int;
    let u1 = clamp_unit(t1) as int;
    let u2 = clamp_unit(t2) as int;
    let n = keys.len() as int;
    assert(0 <= u1 * n <= u2 * n) by (nonlinear_arith)
        requires
            0 <= u1 <= u2,
            n >= 0,
    ;
    let i = segment(keys.len(), t1);
    lemma_lerp_monotonic(
        keys[i] as int,
        keys[i + 1] as int,
        segment_fraction(keys.len(), t1),
        segment_fraction(keys.len(), t2),
    );
}

} // verus!
