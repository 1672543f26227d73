//! The fixed-point scalar layer and the linear-algebra primitives.

use ekki::fixed::{fx_add, fx_div, fx_divi, fx_mul, fx_neg, fx_sqrt, fx_sub, FX_ONE};
use ekki::matrix::{Matrix3, Matrix4};
use ekki::point::Point3;
use ekki::quaternion::Quaternion;
use ekki::trig::{fx_cos, fx_sin, Degrees, Radians, FX_HALF_PI, FX_PI, FX_TWO_PI};
use ekki::vector::{Vector2, Vector3, Vector4};

fn fxf(v: i64) -> f32 {
    v as f32 / 65536.0
}

#[test]
fn scalar_arithmetic_is_exact_fixed_point() {
    assert_eq!(fx_add(3 * FX_ONE, 2 * FX_ONE), 5 * FX_ONE);
    assert_eq!(fx_sub(3 * FX_ONE, 5 * FX_ONE), -2 * FX_ONE);
    assert_eq!(fx_neg(7 * FX_ONE), -7 * FX_ONE);
    assert_eq!(fx_mul(3 * FX_ONE, 2 * FX_ONE), 6 * FX_ONE);
    assert_eq!(fx_mul(FX_ONE / 2, FX_ONE / 2), FX_ONE / 4);
    assert_eq!(fx_div(6 * FX_ONE, 2 * FX_ONE), 3 * FX_ONE);
    assert_eq!(fx_div(FX_ONE, 0), 0);
    assert_eq!(fx_divi(6 * FX_ONE, 3), 2 * FX_ONE);
    // Division truncates toward zero.
    assert_eq!(fx_divi(-3, 2), -1);
}

#[test]
fn scalar_arithmetic_saturates_instead_of_wrapping() {
    assert_eq!(fx_add(i64::MAX, 1), i64::MAX);
    assert_eq!(fx_sub(i64::MIN, 1), i64::MIN);
    assert_eq!(fx_neg(i64::MIN), i64::MAX);
    assert_eq!(fx_mul(i64::MAX, i64::MAX), i64::MAX);
    assert_eq!(fx_mul(i64::MAX, i64::MIN), i64::MIN);
}

#[test]
fn square_root_is_the_rounded_down_real_root() {
    assert_eq!(fx_sqrt(4 * FX_ONE), 2 * FX_ONE);
    assert_eq!(fx_sqrt(FX_ONE), FX_ONE);
    assert_eq!(fx_sqrt(0), 0);
    assert_eq!(fx_sqrt(-5), 0);
    let got = fxf(fx_sqrt(2 * FX_ONE));
    assert!((got - 2.0f32.sqrt()).abs() < 1e-4);
}

#[test]
fn trig_matches_the_real_functions() {
    assert_eq!(fx_sin(0), 0);
    assert_eq!(fx_cos(0), FX_ONE);
    let cases = [0i64, 17000, FX_HALF_PI, 150000, FX_PI, 300000, 390000, -80000, -300000];
    for a in cases {
        let x = fxf(a);
        assert!((fxf(fx_sin(a)) - x.sin()).abs() < 3e-3, "sin at {x}");
        assert!((fxf(fx_cos(a)) - x.cos()).abs() < 3e-3, "cos at {x}");
    }
    // Reduction handles angles beyond one turn.
    let big = 3 * FX_TWO_PI + 17000;
    assert!((fxf(fx_sin(big)) - fxf(17000).sin()).abs() < 3e-3);
}

#[test]
fn degree_conversion_scales_by_pi_over_180() {
    let r = Degrees(45 * FX_ONE).into_radians();
    assert!((fxf(r.0) - std::f32::consts::FRAC_PI_4).abs() < 1e-4);
}

#[test]
fn quaternion_identity_is_a_unit_for_multiplication() {
    let q = Quaternion::new(60000, 12000, -9000, 4000);
    assert_eq!(q.mul(Quaternion::identity()), q);
    assert_eq!(Quaternion::identity().mul(q), q);
    assert_eq!(Quaternion::identity().normalize(), Quaternion::identity());
}

#[test]
fn axis_angle_builds_the_half_angle_quaternion() {
    let axis = Vector3::new(0, FX_ONE, 0);
    let q = Quaternion::rotation_from_axis_angle(axis, Radians(FX_HALF_PI));
    let half = std::f32::consts::FRAC_PI_4;
    assert!((fxf(q.w) - half.cos()).abs() < 3e-3);
    assert!((fxf(q.y) - half.sin()).abs() < 3e-3);
    assert_eq!(q.x, 0);
    assert_eq!(q.z, 0);
}

#[test]
fn quaternion_normalization_scales_to_unit_norm() {
    let q = Quaternion::new(2 * FX_ONE, 0, 0, 0);
    assert_eq!(q.normalize(), Quaternion::identity());
    let q = Quaternion::new(50000, 30000, -20000, 10000).normalize();
    let norm = fxf(q.w).powi(2) + fxf(q.x).powi(2) + fxf(q.y).powi(2) + fxf(q.z).powi(2);
    assert!((norm - 1.0).abs() < 1e-3);
}

#[test]
fn translation_matrices_invert_exactly() {
    let t = Matrix4::from_translation(Vector3::new(3 * FX_ONE, -2 * FX_ONE, 5 * FX_ONE));
    let inv = t.invert().expect("a translation is regular");
    assert_eq!(inv.c3r0, -3 * FX_ONE);
    assert_eq!(inv.c3r1, 2 * FX_ONE);
    assert_eq!(inv.c3r2, -5 * FX_ONE);
    assert_eq!(inv.c0r0, FX_ONE);
    let product = t.mul(inv);
    assert_eq!(product.c0r0, FX_ONE);
    assert_eq!(product.c3r0, 0);
    assert_eq!(product.c3r3, FX_ONE);
}

#[test]
fn singular_matrices_are_reported() {
    let zero4 = Matrix4::new(0, 0, 0, 0, 0, 0, 0, 0, 0, 0, 0, 0, 0, 0, 0, 0);
    assert!(zero4.invert().is_err());
    let identity3 = Matrix3::from_quaternion(Quaternion::identity());
    assert!(identity3.invert().is_ok());
    assert_eq!(identity3.invert().unwrap().x(), Vector3::new(FX_ONE, 0, 0));
}

#[test]
fn perspective_matrix_has_the_textbook_entries() {
    let aspect = fx_div(16 * FX_ONE, 9 * FX_ONE);
    let m = Matrix4::create_perspective(Degrees(45 * FX_ONE), aspect, 6554, 6553600);
    let f = 1.0 / 22.5f32.to_radians().tan();
    assert!((fxf(m.c0r0) - f / (16.0 / 9.0)).abs() < 5e-3);
    assert!((fxf(m.c1r1) - f).abs() < 5e-3);
    assert!((fxf(m.c2r3) + 1.0).abs() < 1e-4);
    let near = 0.1000061f32;
    let far = 100.0f32;
    assert!((fxf(m.c2r2) - (far + near) / (near - far)).abs() < 1e-3);
    assert!((fxf(m.c3r2) - 2.0 * far * near / (near - far)).abs() < 1e-3);
    assert_eq!(m.c0r1, 0);
    assert_eq!(m.c3r3, 0);
}

#[test]
fn vector_operations_are_componentwise() {
    let v = Vector3::new(FX_ONE, 2 * FX_ONE, 3 * FX_ONE);
    let w = Vector3::new(-FX_ONE, FX_ONE, FX_ONE);
    let sum = v.add(&w);
    assert_eq!((sum.x, sum.y, sum.z), (0, 3 * FX_ONE, 4 * FX_ONE));
    assert_eq!(Vector3::dot(v, w), 4 * FX_ONE);
    let n = v.neg();
    assert_eq!(n.x, -FX_ONE);
    assert_eq!(v.xy(), Vector2::new(FX_ONE, 2 * FX_ONE));
    assert_eq!(Vector3::unit_y().y, FX_ONE);
    let v4 = Vector4 { x: 1, y: 2, z: 3, w: 4 };
    let t = v4.truncate();
    assert_eq!((t.x, t.y, t.z), (1, 2, 3));
}

#[test]
fn perpendicular_vector_rotates_clockwise() {
    let v = Vector2::new(3 * FX_ONE, 4 * FX_ONE);
    let p = Vector2::get_perpindicular_cw_vector(v);
    assert_eq!(p, Vector2::new(4 * FX_ONE, -3 * FX_ONE));
    // Perpendicular: the dot product vanishes.
    assert_eq!(fx_add(fx_mul(v.x, p.x), fx_mul(v.y, p.y)), 0);
}

#[test]
fn approximate_equality_tolerates_one_step() {
    let a = Vector2::new(1000, 2000);
    assert!(Vector2::are_approximately_equal(&a, &Vector2::new(1001, 1999)));
    assert!(!Vector2::are_approximately_equal(&a, &Vector2::new(1003, 2000)));
}

#[test]
fn vector_normalization_gives_unit_length() {
    let v = Vector2::new(3 * FX_ONE, 4 * FX_ONE).normalize();
    assert!((fxf(v.x) - 0.6).abs() < 1e-4);
    assert!((fxf(v.y) - 0.8).abs() < 1e-4);
    let zero = Vector2::new(0, 0).normalize();
    assert_eq!(zero, Vector2::new(0, 0));
}

#[test]
fn points_convert_to_displacements() {
    let p = Point3::new(1, 2, 3);
    let v = p.to_vec3();
    assert_eq!((v.x, v.y, v.z), (1, 2, 3));
    assert_eq!(Point3::origin(), Point3::new(0, 0, 0));
}
