//! Camera behavior: gesture commit, cache consistency, reverse flag,
//! resize, and the matrix readouts.

use ekki::camera::{
    handle_shortcut_viewport_camera_rotate, opengl_to_wgpu_matrix, viewport_camera_rotate, Camera,
    ViewInfo,
};
use ekki::matrix::Matrix4;
use ekki::quaternion::Quaternion;
use ekki::trig::Degrees;
use ekki::vector::Vector2;

const FX: i64 = 65536;

fn fxf(v: i64) -> f32 {
    v as f32 / 65536.0
}

fn px(p: i64) -> i64 {
    p * FX
}

fn default_camera() -> Camera {
    Camera::initialize(px(800), px(600))
}

#[test]
fn solidify_twice_is_a_no_op() {
    let mut c = default_camera();
    c.turntable_rotate(Vector2::new(px(50), px(30)), (px(800), px(600)));
    c.solidify_view_info();
    let rotation_after_first = c.view_info.current_rotation;
    let view_after_first = c.view_info.view_matrix;
    let vp_after_first = c.view_projection_matrix;
    let flag_after_first = c.view_info.should_reverse;
    c.solidify_view_info();
    assert_eq!(c.view_info.current_rotation, rotation_after_first);
    assert_eq!(c.view_info.rotation_modifier, Quaternion::identity());
    assert_eq!(c.view_info.view_matrix, view_after_first);
    assert_eq!(c.view_projection_matrix, vp_after_first);
    assert_eq!(c.view_info.should_reverse, flag_after_first);
}

#[test]
fn solidify_commits_the_normalized_product() {
    let mut c = default_camera();
    c.turntable_rotate(Vector2::new(px(40), px(-25)), (px(800), px(600)));
    c.turntable_rotate(Vector2::new(px(90), px(10)), (px(800), px(600)));
    let rotation_before = c.view_info.current_rotation;
    let last_modifier = c.view_info.rotation_modifier;
    c.solidify_view_info();
    let expected = rotation_before.mul(last_modifier).normalize();
    assert_eq!(c.view_info.current_rotation, expected);
    assert_eq!(c.view_info.rotation_modifier, Quaternion::identity());
}

#[test]
fn cached_matrix_equals_fresh_recomputation() {
    let mut c = default_camera();
    c.handle_window_resize(px(1024), px(768));
    c.turntable_rotate(Vector2::new(px(33), px(77)), (px(1024), px(768)));
    c.solidify_view_info();
    c.turntable_rotate(Vector2::new(px(-12), px(4)), (px(1024), px(768)));
    let cached = c.get_view_projection_matrix();
    let view = ViewInfo::build_view_matrix_from_rotation_and_offset(
        c.view_info.current_rotation.mul(c.view_info.rotation_modifier),
        c.view_info.z_offset.to_vec3().add(&c.view_info.look_at.to_vec3()),
    );
    let projection = Matrix4::create_perspective(
        c.projection_info.vertical_fov,
        c.projection_info.aspect_ratio,
        c.projection_info.z_near,
        c.projection_info.z_far,
    );
    let fresh = opengl_to_wgpu_matrix().mul(projection).mul(view);
    assert_eq!(cached, fresh);
}

#[test]
fn rotating_past_vertical_flips_the_reverse_flag() {
    let mut c = default_camera();
    assert!(!c.view_info.should_reverse);
    // 0.6 of the viewport height: about 108 degrees, past straight up.
    c.turntable_rotate(Vector2::new(0, px(360)), (px(800), px(600)));
    c.solidify_view_info();
    assert!(c.view_info.should_reverse);
    // Back down by about 36 degrees: about 72 degrees in total.
    c.turntable_rotate(Vector2::new(0, px(-120)), (px(800), px(600)));
    c.solidify_view_info();
    assert!(!c.view_info.should_reverse);
}

#[test]
fn reverse_flag_negates_horizontal_input() {
    let mut plain = default_camera();
    let mut reversed = default_camera();
    reversed.view_info.should_reverse = true;
    plain.turntable_rotate(Vector2::new(px(-100), 0), (px(800), px(600)));
    reversed.turntable_rotate(Vector2::new(px(100), 0), (px(800), px(600)));
    assert_eq!(plain.view_info.rotation_modifier, reversed.view_info.rotation_modifier);
}

#[test]
fn zero_delta_rotation_keeps_the_view_matrix() {
    let mut c = default_camera();
    let view_before = c.view_info.view_matrix;
    let vp_before = c.view_projection_matrix;
    c.turntable_rotate(Vector2::new(0, 0), (px(800), px(600)));
    assert_eq!(c.view_info.rotation_modifier, Quaternion::identity());
    assert_eq!(c.view_info.view_matrix, view_before);
    assert_eq!(c.view_projection_matrix, vp_before);
}

#[test]
fn resize_updates_the_aspect_ratio_only() {
    let mut c = default_camera();
    c.handle_window_resize(px(1920), px(1080));
    assert_eq!(c.get_z_near(), 6554);
    assert_eq!(c.get_z_far(), 6553600);
    let aspect = 1920.0f32 / 1080.0;
    let expected = 1.0 / (22.5f32.to_radians().tan()) / aspect;
    let got = fxf(c.projection_info.projection_matrix.c0r0);
    assert!((got - expected).abs() < 5e-3, "got {got}, expected {expected}");
    assert!((fxf(c.projection_info.aspect_ratio) - aspect).abs() < 1e-3);
}

#[test]
fn view_projection_inverse_inverts() {
    let mut c = default_camera();
    c.turntable_rotate(Vector2::new(px(60), px(40)), (px(800), px(600)));
    c.solidify_view_info();
    let vp = c.get_view_projection_matrix();
    let inv = c.get_view_projection_matrix_inverse().expect("the matrix is regular");
    let product = vp.mul(inv);
    let entries = [
        (product.c0r0, 1.0f32),
        (product.c1r1, 1.0),
        (product.c2r2, 1.0),
        (product.c3r3, 1.0),
        (product.c0r1, 0.0),
        (product.c0r2, 0.0),
        (product.c1r0, 0.0),
        (product.c2r0, 0.0),
        (product.c3r0, 0.0),
        (product.c3r1, 0.0),
    ];
    for (got, expected) in entries {
        assert!((fxf(got) - expected).abs() < 0.05, "got {}, expected {}", fxf(got), expected);
    }
}

#[test]
fn initialize_with_zero_height_uses_the_sentinel_aspect() {
    let c = Camera::initialize(0, 0);
    assert_eq!(c.projection_info.aspect_ratio, FX);
    assert_eq!(c.projection_info.vertical_fov, Degrees(45 * FX));
}

#[test]
fn default_view_sits_three_units_back() {
    let c = default_camera();
    assert_eq!(c.view_info.z_offset.z, 3 * FX);
    assert_eq!(c.view_info.current_rotation, Quaternion::identity());
    // The view matrix translates the origin three units down the z axis.
    assert_eq!(c.view_info.view_matrix.c3r2, -3 * FX);
}

#[test]
fn rotate_shortcut_requires_key_and_button() {
    assert!(viewport_camera_rotate(true, true));
    assert!(!viewport_camera_rotate(true, false));
    assert!(!viewport_camera_rotate(false, true));
    assert!(!viewport_camera_rotate(false, false));
}

#[test]
fn gesture_release_commits_exactly_once() {
    let mut c = default_camera();
    let mut doing = false;
    doing = handle_shortcut_viewport_camera_rotate(&mut c, doing, true);
    assert!(doing);
    c.turntable_rotate(Vector2::new(px(45), px(15)), (px(800), px(600)));
    let rotation_before = c.view_info.current_rotation;
    let modifier_before = c.view_info.rotation_modifier;
    doing = handle_shortcut_viewport_camera_rotate(&mut c, doing, false);
    assert!(!doing);
    assert_eq!(c.view_info.current_rotation, rotation_before.mul(modifier_before).normalize());
    assert_eq!(c.view_info.rotation_modifier, Quaternion::identity());
    // A further idle frame leaves the camera untouched.
    let rotation_after = c.view_info.current_rotation;
    doing = handle_shortcut_viewport_camera_rotate(&mut c, doing, false);
    assert!(!doing);
    assert_eq!(c.view_info.current_rotation, rotation_after);
}
