use bevy_prototype_particles::fixed::{
    abs_fixed, add_fixed, advance_fixed, clamp_unit_fixed, lerp_fixed, mul_fixed,
    saturate_i128, SCALE,
};
use bevy_prototype_particles::math::{Mat4, Vec3, Vec4};

#[test]
fn scale_is_one_million() {
    assert_eq!(SCALE, 1_000_000);
}

#[test]
fn product_rounds_down() {
    assert_eq!(mul_fixed(1_500_000, 3), 4);
    assert_eq!(mul_fixed(-1_500_000, 3), -5);
    assert_eq!(mul_fixed(2_000_000, 3_500_000), 7_000_000);
}

#[test]
fn product_saturates() {
    assert_eq!(mul_fixed(i64::MAX, i64::MAX), i64::MAX);
    assert_eq!(mul_fixed(i64::MAX, i64::MIN), i64::MIN);
    assert_eq!(mul_fixed(i64::MIN, i64::MIN), i64::MAX);
}

#[test]
fn sum_saturates() {
    assert_eq!(add_fixed(1, 2), 3);
    assert_eq!(add_fixed(i64::MAX, 1), i64::MAX);
    assert_eq!(add_fixed(i64::MIN, -1), i64::MIN);
}

#[test]
fn narrowing_sticks_at_the_bounds() {
    assert_eq!(saturate_i128(5), 5);
    assert_eq!(saturate_i128(i128::MAX), i64::MAX);
    assert_eq!(saturate_i128(i128::MIN), i64::MIN);
}

#[test]
fn advance_uses_microseconds() {
    // two units per second for half a second
    assert_eq!(advance_fixed(1_000_000, 2_000_000, 500_000), 2_000_000);
    assert_eq!(advance_fixed(0, -9_800_000, 1_000_000), -9_800_000);
    assert_eq!(advance_fixed(0, i64::MAX, u64::MAX), i64::MAX);
    assert_eq!(advance_fixed(0, i64::MIN, u64::MAX), i64::MIN);
}

#[test]
fn lerp_hits_both_ends() {
    assert_eq!(lerp_fixed(10, 20, 0), 10);
    assert_eq!(lerp_fixed(10, 20, SCALE), 20);
    assert_eq!(lerp_fixed(i64::MIN, i64::MAX, 0), i64::MIN);
    assert_eq!(lerp_fixed(i64::MIN, i64::MAX, SCALE), i64::MAX);
}

#[test]
fn lerp_is_not_clamped() {
    assert_eq!(lerp_fixed(10, 20, 500_000), 15);
    assert_eq!(lerp_fixed(10, 20, 2_000_000), 30);
    assert_eq!(lerp_fixed(10, 20, -1_000_000), 0);
    assert_eq!(lerp_fixed(20, 10, 250_000), 17);
}

#[test]
fn magnitude_saturates() {
    assert_eq!(abs_fixed(-3), 3);
    assert_eq!(abs_fixed(3), 3);
    assert_eq!(abs_fixed(i64::MIN), i64::MAX);
}

#[test]
fn unit_clamp() {
    assert_eq!(clamp_unit_fixed(-1), 0);
    assert_eq!(clamp_unit_fixed(0), 0);
    assert_eq!(clamp_unit_fixed(400_000), 400_000);
    assert_eq!(clamp_unit_fixed(SCALE), SCALE);
    assert_eq!(clamp_unit_fixed(SCALE + 1), SCALE);
}

#[test]
fn vector_arithmetic() {
    let v = Vec3::new(1_000_000, -2_000_000, 3_000_000);
    assert_eq!(v.scaled_by(500_000), Vec3::new(500_000, -1_000_000, 1_500_000));
    assert_eq!(v.plus(Vec3::new(1, 2, 3)), Vec3::new(1_000_001, -1_999_998, 3_000_003));
    assert_eq!(Vec3::zero(), Vec3::new(0, 0, 0));
    assert_eq!(Vec3::default(), Vec3::zero());
    assert_eq!(Vec4::default(), Vec4::zero());
    let w = Vec4::from_vec3(v, 7);
    assert_eq!(w, Vec4::new(1_000_000, -2_000_000, 3_000_000, 7));
    let moved = Vec4::new(0, 0, 0, 0).advanced(Vec4::new(1_000_000, 2_000_000, 0, -4_000_000), 250_000);
    assert_eq!(moved, Vec4::new(250_000, 500_000, 0, -1_000_000));
}

#[test]
fn identity_transform_changes_nothing() {
    let p = Vec3::new(1_250_000, -7, 3_000_000);
    assert_eq!(Mat4::identity().transform_point3(p), p);
    assert_eq!(Mat4::identity().transform_vector3(p), p);
}

#[test]
fn offset_moves_points_not_directions() {
    let m = Mat4 {
        w_axis: Vec4::new(1_000_000, 2_000_000, 3_000_000, SCALE),
        ..Mat4::identity()
    };
    let p = Vec3::new(500_000, 0, -500_000);
    assert_eq!(m.transform_point3(p), Vec3::new(1_500_000, 2_000_000, 2_500_000));
    assert_eq!(m.transform_vector3(p), p);
}

#[test]
fn rotation_about_z_by_a_quarter_turn() {
    // x goes to y, y goes to -x
    let m = Mat4 {
        x_axis: Vec4::new(0, SCALE, 0, 0),
        y_axis: Vec4::new(-SCALE, 0, 0, 0),
        z_axis: Vec4::new(0, 0, SCALE, 0),
        w_axis: Vec4::new(10, 20, 30, SCALE),
    };
    let p = Vec3::new(1_000_000, 2_000_000, 3_000_000);
    assert_eq!(m.transform_vector3(p), Vec3::new(-2_000_000, 1_000_000, 3_000_000));
    assert_eq!(m.transform_point3(p), Vec3::new(-1_999_990, 1_000_020, 3_000_030));
}
