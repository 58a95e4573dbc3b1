//! Fixed-point vectors and the affine transform that places an emitter in the world.

use vstd::prelude::*;
use crate::fixed::{
    fx_add, fx_mul, fx_mul_add, saturate, scaled, add_fixed, mul_fixed, advance_fixed,
    saturate_i128, wide_scaled, SCALE,
};

verus! {

/// Three fixed-point coordinates.
#[derive(Clone, Copy, Debug, PartialEq, Eq, Structural)]
pub struct Vec3 {
    pub x: i64,
    pub y: i64,
    pub z: i64,
}

/// Four fixed-point components: three coordinates and a planar rotation, or
/// the four channels of a colour.
#[derive(Clone, Copy, Debug, PartialEq, Eq, Structural)]
pub struct Vec4 {
    pub x: i64,
    pub y: i64,
    pub z: i64,
    pub w: i64,
}

/// A 4x4 matrix stored by columns, read as an affine transform: the first
/// three columns carry rotation and scale, the fourth the offset.
#[derive(Clone, Copy, Debug, PartialEq, Eq, Structural)]
pub struct Mat4 {
    pub x_axis: Vec4,
    pub y_axis: Vec4,
    pub z_axis: Vec4,
    pub w_axis: Vec4,
}

impl Vec3 {
    pub open spec fn spec_zero() -> Vec3 {
        Vec3 { x: 0, y: 0, z: 0 }
    }

    /// Componentwise saturating sum.
    pub open spec fn spec_plus(self, other: Vec3) -> Vec3 {
        Vec3 {
            x: fx_add(self.x as int, other.x as int),
            y: fx_add(self.y as int, other.y as int),
            z: fx_add(self.z as int, other.z as int),
        }
    }

    /// Every component multiplied by the fixed-point factor `k`.
    pub open spec fn spec_scaled_by(self, k: int) -> Vec3 {
        Vec3 {
            x: fx_mul(self.x as int, k),
            y: fx_mul(self.y as int, k),
            z: fx_mul(self.z as int, k),
        }
    }

    #[verifier::when_used_as_spec(spec_zero)]
    pub fn zero() -> (r: Vec3)
        ensures
            r == Vec3::spec_zero(),
    {
        Vec3 { x: 0, y: 0, z: 0 }
    }

    pub fn new(x: i64, y: i64, z: i64) -> (r: Vec3)
        ensures
            r == (Vec3 { x, y, z }),
    {
        Vec3 { x, y, z }
    }

    #[verifier::when_used_as_spec(spec_plus)]
    pub fn plus(self, other: Vec3) -> (r: Vec3)
        ensures
            r == self.spec_plus(other),
    {
        Vec3 {
            x: add_fixed(self.x, other.x),
            y: add_fixed(self.y, other.y),
            z: add_fixed(self.z, other.z),
        }
    }

    pub fn scaled_by(self, k: i64) -> (r: Vec3)
        ensures
            r == self.spec_scaled_by(k as int),
    {
        Vec3 { x: mul_fixed(self.x, k), y: mul_fixed(self.y, k), z: mul_fixed(self.z, k) }
    }
}

impl Default for Vec3 {
    fn default() -> (r: Vec3)
        ensures
            r == Vec3::spec_zero(),
    {
        Vec3 { x: 0, y: 0, z: 0 }
    }
}

impl Vec4 {
    pub open spec fn spec_zero() -> Vec4 {
        Vec4 { x: 0, y: 0, z: 0, w: 0 }
    }

    /// A 4-vector made of a 3-vector and a fourth component.
    pub open spec fn spec_from_vec3(v: Vec3, w: i64) -> Vec4 {
        Vec4 { x: v.x, y: v.y, z: v.z, w }
    }

    /// `self + rate * seconds`, componentwise, for a span of `micros` microseconds.
    pub open spec fn spec_advanced(self, rate: Vec4, micros: int) -> Vec4 {
        Vec4 {
            x: fx_mul_add(self.x as int, rate.x as int, micros),
            y: fx_mul_add(self.y as int, rate.y as int, micros),
            z: fx_mul_add(self.z as int, rate.z as int, micros),
            w: fx_mul_add(self.w as int, rate.w as int, micros),
        }
    }

    #[verifier::when_used_as_spec(spec_zero)]
    pub fn zero() -> (r: Vec4)
        ensures
            r == Vec4::spec_zero(),
    {
        Vec4 { x: 0, y: 0, z: 0, w: 0 }
    }

    pub fn new(x: i64, y: i64, z: i64, w: i64) -> (r: Vec4)
        ensures
            r == (Vec4 { x, y, z, w }),
    {
        Vec4 { x, y, z, w }
    }

    #[verifier::when_used_as_spec(spec_from_vec3)]
    pub fn from_vec3(v: Vec3, w: i64) -> (r: Vec4)
        ensures
            r == Vec4::spec_from_vec3(v, w),
    {
        Vec4 { x: v.x, y: v.y, z: v.z, w }
    }

    pub fn advanced(self, rate: Vec4, micros: u64) -> (r: Vec4)
        ensures
            r == self.spec_advanced(rate, micros as int),
    {
        Vec4 {
            x: advance_fixed(self.x, rate.x, micros),
            y: advance_fixed(self.y, rate.y, micros),
            z: advance_fixed(self.z, rate.z, micros),
            w: advance_fixed(self.w, rate.w, micros),
        }
    }
}

impl Default for Vec4 {
    fn default() -> (r: Vec4)
        ensures
            r == Vec4::spec_zero(),
    {
        Vec4 { x: 0, y: 0, z: 0, w: 0 }
    }
}

/// One output coordinate of a transform: the dot product of a matrix row
/// `(a, b, c)` with `p`, plus the offset `d`, saturated once at the end.
pub open spec fn affine_row(a: i64, b: i64, c: i64, d: i64, p: Vec3) -> i64 {
    saturate(scaled(a as int, p.x as int) + scaled(b as int, p.y as int) + scaled(c as int, p.z as int) + d)
}

fn affine_row_fixed(a: i64, b: i64, c: i64, d: i64, p: Vec3) -> (r: i64)
    ensures
        r == affine_row(a, b, c, d, p),
{
    let sx: i128 = wide_scaled(a as i128, p.x as i128);
    let sy: i128 = wide_scaled(b as i128, p.y as i128);
    let sz: i128 = wide_scaled(c as i128, p.z as i128);
    proof {
        crate::fixed::lemma_scaled_magnitude(a as int, p.x as int);
        crate::fixed::lemma_scaled_magnitude(b as int, p.y as int);
        crate::fixed::lemma_scaled_magnitude(c as int, p.z as int);
    }
    saturate_i128(sx + sy + sz + d as i128)
}

impl Mat4 {
    pub open spec fn spec_identity() -> Mat4 {
        Mat4 {
            x_axis: Vec4 { x: SCALE, y: 0, z: 0, w: 0 },
            y_axis: Vec4 { x: 0, y: SCALE, z: 0, w: 0 },
            z_axis: Vec4 { x: 0, y: 0, z: SCALE, w: 0 },
            w_axis: Vec4 { x: 0, y: 0, z: 0, w: SCALE },
        }
    }

    /// The image of the point `p`: rotated, scaled and shifted by the offset.
    pub open spec fn spec_transform_point3(self, p: Vec3) -> Vec3 {
        Vec3 {
            x: affine_row(self.x_axis.x, self.y_axis.x, self.z_axis.x, self.w_axis.x, p),
            y: affine_row(self.x_axis.y, self.y_axis.y, self.z_axis.y, self.w_axis.y, p),
            z: affine_row(self.x_axis.z, self.y_axis.z, self.z_axis.z, self.w_axis.z, p),
        }
    }

    /// The image of the direction `v`: rotated and scaled, not shifted.
    pub open spec fn spec_transform_vector3(self, v: Vec3) -> Vec3 {
        Vec3 {
            x: affine_row(self.x_axis.x, self.y_axis.x, self.z_axis.x, 0, v),
            y: affine_row(self.x_axis.y, self.y_axis.y, self.z_axis.y, 0, v),
            z: affine_row(self.x_axis.z, self.y_axis.z, self.z_axis.z, 0, v),
        }
    }

    #[verifier::when_used_as_spec(spec_identity)]
    pub fn identity() -> (r: Mat4)
        ensures
            r == Mat4::spec_identity(),
    {
        Mat4 {
            x_axis: Vec4 { x: SCALE, y: 0, z: 0, w: 0 },
            y_axis: Vec4 { x: 0, y: SCALE, z: 0, w: 0 },
            z_axis: Vec4 { x: 0, y: 0, z: SCALE, w: 0 },
            w_axis: Vec4 { x: 0, y: 0, z: 0, w: SCALE },
        }
    }

    pub fn transform_point3(&self, p: Vec3) -> (r: Vec3)
        ensures
            r == self.spec_transform_point3(p),
    {
        Vec3 {
            x: affine_row_fixed(self.x_axis.x, self.y_axis.x, self.z_axis.x, self.w_axis.x, p),
            y: affine_row_fixed(self.x_axis.y, self.y_axis.y, self.z_axis.y, self.w_axis.y, p),
            z: affine_row_fixed(self.x_axis.z, self.y_axis.z, self.z_axis.z, self.w_axis.z, p),
        }
    }

    pub fn transform_vector3(&self, v: Vec3) -> (r: Vec3)
        ensures
            r == self.spec_transform_vector3(v),
    {
        Vec3 {
            x: affine_row_fixed(self.x_axis.x, self.y_axis.x, self.z_axis.x, 0, v),
            y: affine_row_fixed(self.x_axis.y, self.y_axis.y, self.z_axis.y, 0, v),
            z: affine_row_fixed(self.x_axis.z, self.y_axis.z, self.z_axis.z, 0, v),
        }
    }
}

/// The identity transform leaves every point and every direction where it is.
pub proof fn lemma_identity_transform(p: Vec3)
    ensures
        Mat4::spec_identity().spec_transform_point3(p) == p,
        Mat4::spec_identity().spec_transform_vector3(p) == p,
{
    let s = SCALE as int;
    assert forall|c: int| #[trigger] scaled(s, c) == c by {
        assert((s * c) / s == c) by (nonlinear_arith)
            requires
                s == 1_000_000,
        ;
    }
    assert forall|c: int| #[trigger] scaled(0, c) == 0 by {
        assert(0 * c == 0);
    }
}

} // verus!
