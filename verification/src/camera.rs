//! The orbiting viewport camera: view and projection state with cached
//! matrices, turntable rotation from pointer deltas, and an explicit commit
//! step for in-progress rotations.
//!
//! The cached matrices are pure functions of the canonical state: the
//! well-formedness predicates `vi_wf`, `pi_wf` and `camera_wf` say that each
//! cache equals its recomputation, every constructor establishes them, and
//! every mutating method re-establishes them.

use crate::fixed::{fx_div, fx_div_s, fx_mul, fx_mul_s, fx_neg, fx_neg_s, FX_ONE};
use crate::matrix::{
    mat3_det_s, mat3_from_quat_s, mat3_invert_s, mat4_from_quat_s, mat4_from_translation_s,
    mat4_mul_s, mat4_perspective_s, Matrix3, Matrix4,
};
use crate::point::{p3_to_v3_s, Point3};
use crate::quaternion::{
    quat_from_axis_angle_s, quat_identity_s, quat_mul_s, quat_normalize_s, Quaternion,
};
use crate::trig::{Degrees, Radians, FX_PI, FX_TWO_PI};
use crate::vector::{v3_add_s, v3_dot_s, v3_neg_s, Vector2, Vector3};
use vstd::prelude::*;

verus! {

/// Default distance of the camera behind the look-at point: three units.
pub const DEFAULT_Z_OFFSET: i64 = 196608;

/// Default vertical field of view: 45 fixed-point degrees.
pub const DEFAULT_FOV: i64 = 2949120;

/// Default distance to the near clipping plane: about a tenth of a unit.
pub const DEFAULT_Z_NEAR: i64 = 6554;

/// Default distance to the far clipping plane: one hundred units.
pub const DEFAULT_Z_FAR: i64 = 6553600;

/// The clip-space remap from a `[-1, 1]` depth range to a `[0, 1]` depth
/// range: the identity except that depth is halved and shifted by a half.
pub open spec fn opengl_to_wgpu_s() -> Matrix4 {
    Matrix4 {
        c0r0: FX_ONE as i64,
        c0r1: 0,
        c0r2: 0,
        c0r3: 0,
        c1r0: 0,
        c1r1: FX_ONE as i64,
        c1r2: 0,
        c1r3: 0,
        c2r0: 0,
        c2r1: 0,
        c2r2: 32768,
        c2r3: 0,
        c3r0: 0,
        c3r1: 0,
        c3r2: 32768,
        c3r3: FX_ONE as i64,
    }
}

/// Builds the clip-space remap matrix.
pub fn opengl_to_wgpu_matrix() -> (r: Matrix4)
    ensures
        r == opengl_to_wgpu_s(),
{
    Matrix4::new(FX_ONE, 0, 0, 0, 0, FX_ONE, 0, 0, 0, 0, 32768, 0, 0, 0, 32768, FX_ONE)
}

/// The view state: where the camera orbits, its committed rotation, the
/// in-progress rotation of an active gesture, and the cached view matrix.
pub struct ViewInfo {
    /// How far the camera is from the look-at point, before rotation is
    /// applied.
    pub z_offset: Point3,
    /// The point the camera orbits around.
    pub look_at: Point3,
    /// The committed orientation; persists across gestures.
    pub current_rotation: Quaternion,
    /// The in-progress rotation of an active gesture; the identity when
    /// idle. The camera's total rotation is
    /// `current_rotation * rotation_modifier`.
    pub rotation_modifier: Quaternion,
    /// Whether horizontal pointer input is reversed, so that the controls
    /// keep their direction when the scene is viewed upside down.
    pub should_reverse: bool,
    /// Cached world-to-camera transform.
    pub view_matrix: Matrix4,
}

/// The total offset of the camera from the origin before rotation.
pub open spec fn view_offset_s(v: ViewInfo) -> Vector3 {
    v3_add_s(p3_to_v3_s(v.z_offset), p3_to_v3_s(v.look_at))
}

/// The view matrix determined by a rotation and an offset: translate by
/// the negated offset, then rotate.
pub open spec fn build_view_matrix_s(rotation: Quaternion, offset: Vector3) -> Matrix4 {
    mat4_mul_s(mat4_from_translation_s(v3_neg_s(offset)), mat4_from_quat_s(rotation))
}

/// The view cache is exactly the recomputation from the canonical state.
pub open spec fn vi_wf(v: ViewInfo) -> bool {
    v.view_matrix == build_view_matrix_s(
        quat_mul_s(v.current_rotation, v.rotation_modifier),
        view_offset_s(v),
    )
}

impl ViewInfo {
    /// The default view: three units back along the z axis, looking at the
    /// origin, with the identity rotation.
    pub fn initialize() -> (v: ViewInfo)
        ensures
            v.z_offset == (Point3 { x: 0, y: 0, z: DEFAULT_Z_OFFSET as i64 }),
            v.look_at == (Point3 { x: 0, y: 0, z: 0 }),
            v.current_rotation == quat_identity_s(),
            v.rotation_modifier == quat_identity_s(),
            !v.should_reverse,
            vi_wf(v),
    {
        let z_offset = Point3::new(0, 0, DEFAULT_Z_OFFSET);
        let look_at = Point3::origin();
        let current_rotation = Quaternion::identity();
        let rotation_modifier = Quaternion::identity();
        let view_matrix = Self::build_view_matrix_from_rotation_and_offset(
            current_rotation.mul(rotation_modifier),
            z_offset.to_vec3().add(&look_at.to_vec3()),
        );
        ViewInfo {
            z_offset,
            look_at,
            current_rotation,
            rotation_modifier,
            should_reverse: false,
            view_matrix,
        }
    }

    /// Computes the view matrix of a rotation and an offset.
    pub fn build_view_matrix_from_rotation_and_offset(rotation: Quaternion, offset: Vector3) -> (m:
        Matrix4)
        ensures
            m == build_view_matrix_s(rotation, offset),
    {
        let rotation_matrix = Matrix4::from_quaternion(rotation);
        let negative_offset_matrix = Matrix4::from_translation(offset.neg());
        negative_offset_matrix.mul(rotation_matrix)
    }

    /// Recomputes the cached view matrix from the current state.
    pub fn rebuild_view_matrix(&mut self)
        ensures
            *final(self) == (ViewInfo {
                view_matrix: build_view_matrix_s(
                    quat_mul_s(old(self).current_rotation, old(self).rotation_modifier),
                    view_offset_s(*old(self)),
                ),
                ..*old(self)
            }),
            vi_wf(*final(self)),
    {
        self.view_matrix = Self::build_view_matrix_from_rotation_and_offset(
            self.current_rotation.mul(self.rotation_modifier),
            self.z_offset.to_vec3().add(&self.look_at.to_vec3()),
        );
    }

    /// Stores a new in-progress rotation and rebuilds the view cache.
    pub fn set_rotation_modifier(&mut self, value: Quaternion)
        ensures
            *final(self) == (ViewInfo {
                rotation_modifier: value,
                view_matrix: build_view_matrix_s(
                    quat_mul_s(old(self).current_rotation, value),
                    view_offset_s(*old(self)),
                ),
                ..*old(self)
            }),
            vi_wf(*final(self)),
    {
        self.rotation_modifier = value;
        self.rebuild_view_matrix();
    }

    /// The cached view matrix.
    pub fn get_view_matrix(&self) -> (m: Matrix4)
        ensures
            m == self.view_matrix,
    {
        self.view_matrix
    }
}

/// The projection state: field of view, aspect ratio, clip distances, and
/// the cached projection matrix.
pub struct ProjectionInfo {
    /// Vertical field of view, in fixed-point degrees.
    pub vertical_fov: Degrees,
    /// Width over height of the viewport.
    pub aspect_ratio: i64,
    /// Distance to the near clipping plane.
    pub z_near: i64,
    /// Distance to the far clipping plane.
    pub z_far: i64,
    /// Cached perspective projection matrix.
    pub projection_matrix: Matrix4,
}

/// The projection cache is exactly the recomputation from the parameters.
pub open spec fn pi_wf(p: ProjectionInfo) -> bool {
    p.projection_matrix == mat4_perspective_s(p.vertical_fov.0, p.aspect_ratio, p.z_near, p.z_far)
}

impl ProjectionInfo {
    /// The default projection: a 45 degree vertical field of view, clip
    /// distances 0.1 and 100, and the aspect ratio of the given screen
    /// size; a zero height yields the sentinel aspect ratio of one.
    pub fn initialize(screen_width: i64, screen_height: i64) -> (p: ProjectionInfo)
        ensures
            p.vertical_fov.0 == DEFAULT_FOV as i64,
            p.z_near == DEFAULT_Z_NEAR as i64,
            p.z_far == DEFAULT_Z_FAR as i64,
            p.aspect_ratio == if screen_height == 0 {
                FX_ONE as i64
            } else {
                fx_div_s(screen_width, screen_height)
            },
            pi_wf(p),
    {
        let vertical_fov = Degrees(DEFAULT_FOV);
        let aspect_ratio: i64 = if screen_height == 0 {
            FX_ONE
        } else {
            fx_div(screen_width, screen_height)
        };
        let z_near: i64 = DEFAULT_Z_NEAR;
        let z_far: i64 = DEFAULT_Z_FAR;
        let projection_matrix = Matrix4::create_perspective(vertical_fov, aspect_ratio, z_near, z_far);
        ProjectionInfo { vertical_fov, aspect_ratio, z_near, z_far, projection_matrix }
    }

    /// Recomputes the cached projection matrix from the parameters.
    pub fn build_projection_matrix(&mut self)
        ensures
            *final(self) == (ProjectionInfo {
                projection_matrix: mat4_perspective_s(
                    old(self).vertical_fov.0,
                    old(self).aspect_ratio,
                    old(self).z_near,
                    old(self).z_far,
                ),
                ..*old(self)
            }),
            pi_wf(*final(self)),
    {
        self.projection_matrix = Matrix4::create_perspective(
            self.vertical_fov,
            self.aspect_ratio,
            self.z_near,
            self.z_far,
        );
    }

    /// Stores a new aspect ratio and rebuilds the projection cache.
    pub fn set_aspect_ratio(&mut self, arg: i64)
        ensures
            *final(self) == (ProjectionInfo {
                aspect_ratio: arg,
                projection_matrix: mat4_perspective_s(
                    old(self).vertical_fov.0,
                    arg,
                    old(self).z_near,
                    old(self).z_far,
                ),
                ..*old(self)
            }),
            pi_wf(*final(self)),
    {
        self.aspect_ratio = arg;
        self.build_projection_matrix();
    }

    /// The cached projection matrix.
    pub fn get_projection_matrix(&self) -> (m: Matrix4)
        ensures
            m == self.projection_matrix,
    {
        self.projection_matrix
    }
}

/// The camera: view state, projection state, and the cached combined
/// view-projection matrix, which includes the clip-space remap.
pub struct Camera {
    /// The view state.
    pub view_info: ViewInfo,
    /// The projection state.
    pub projection_info: ProjectionInfo,
    /// Cached `remap * projection * view` matrix.
    pub view_projection_matrix: Matrix4,
}

/// The combined matrix determined by a projection cache and a view cache.
pub open spec fn combined_s(projection: Matrix4, view: Matrix4) -> Matrix4 {
    mat4_mul_s(mat4_mul_s(opengl_to_wgpu_s(), projection), view)
}

/// Every cache equals its recomputation from the canonical state.
pub open spec fn camera_wf(c: Camera) -> bool {
    &&& vi_wf(c.view_info)
    &&& pi_wf(c.projection_info)
    &&& c.view_projection_matrix == combined_s(
        c.projection_info.projection_matrix,
        c.view_info.view_matrix,
    )
}

/// Whether the view matrix says the scene is upside down: its up basis
/// vector points away from the world up direction.
pub open spec fn reverse_flag_s(view: Matrix4) -> bool {
    v3_dot_s(
        Vector3 { x: view.c1r0, y: view.c1r1, z: view.c1r2 },
        Vector3 { x: 0, y: FX_ONE as i64, z: 0 },
    ) < 0
}

/// The camera state after committing the in-progress rotation: the
/// modifier folds into the committed rotation (with renormalization,
/// skipped when the modifier is already the identity, for which the fold
/// would change nothing), the modifier resets to the identity, the caches
/// are rebuilt, and the horizontal-reverse flag is recomputed from the
/// view matrix.
pub open spec fn spec_solidify(c: Camera) -> Camera {
    let rot2 = if c.view_info.rotation_modifier == quat_identity_s() {
        c.view_info.current_rotation
    } else {
        quat_normalize_s(quat_mul_s(c.view_info.current_rotation, c.view_info.rotation_modifier))
    };
    let view2 = build_view_matrix_s(quat_mul_s(rot2, quat_identity_s()), view_offset_s(c.view_info));
    Camera {
        view_info: ViewInfo {
            current_rotation: rot2,
            rotation_modifier: quat_identity_s(),
            should_reverse: reverse_flag_s(view2),
            view_matrix: view2,
            ..c.view_info
        },
        projection_info: c.projection_info,
        view_projection_matrix: combined_s(c.projection_info.projection_matrix, view2),
    }
}

/// The camera state after one turntable step for a pointer delta and a
/// viewport size: the in-progress rotation becomes the composition of a
/// rotation around the camera's world-space local horizontal axis (scaled
/// by `pi / height` per vertical pixel) and a rotation around the world up
/// axis (scaled by `2*pi / width` per horizontal pixel, negated when the
/// reverse flag is set), and the caches are rebuilt. If the committed
/// rotation's matrix cannot be inverted the state is left unchanged, so
/// the frame holds the previous matrices.
pub open spec fn spec_turntable(c: Camera, delta: Vector2, width: i64, height: i64) -> Camera {
    let rot_mat = mat3_from_quat_s(c.view_info.current_rotation);
    if mat3_det_s(rot_mat) == 0 {
        c
    } else {
        let inv = mat3_invert_s(rot_mat);
        let up_down_axis = Vector3 { x: inv.c0r0, y: inv.c0r1, z: inv.c0r2 };
        let side_side_axis = Vector3 { x: 0, y: FX_ONE as i64, z: 0 };
        let x_scale = fx_div_s(FX_TWO_PI, width);
        let y_scale = fx_div_s(FX_PI, height);
        let up_down_angle = fx_mul_s(y_scale, delta.y);
        let side_scale = if c.view_info.should_reverse {
            fx_neg_s(x_scale)
        } else {
            x_scale
        };
        let side_side_angle = fx_mul_s(side_scale, delta.x);
        let modifier = quat_normalize_s(
            quat_mul_s(
                quat_from_axis_angle_s(up_down_axis, up_down_angle),
                quat_from_axis_angle_s(side_side_axis, side_side_angle),
            ),
        );
        let view2 = build_view_matrix_s(
            quat_mul_s(c.view_info.current_rotation, modifier),
            view_offset_s(c.view_info),
        );
        Camera {
            view_info: ViewInfo { rotation_modifier: modifier, view_matrix: view2, ..c.view_info },
            projection_info: c.projection_info,
            view_projection_matrix: combined_s(c.projection_info.projection_matrix, view2),
        }
    }
}

impl Camera {
    /// Builds the default camera for a screen size: the default view and a
    /// projection with the screen's aspect ratio, all caches consistent.
    pub fn initialize(screen_width: i64, screen_height: i64) -> (c: Camera)
        ensures
            camera_wf(c),
            c.view_info.current_rotation == quat_identity_s(),
            c.view_info.rotation_modifier == quat_identity_s(),
            !c.view_info.should_reverse,
            c.view_info.z_offset == (Point3 { x: 0, y: 0, z: DEFAULT_Z_OFFSET as i64 }),
            c.view_info.look_at == (Point3 { x: 0, y: 0, z: 0 }),
            c.projection_info.vertical_fov.0 == DEFAULT_FOV as i64,
            c.projection_info.z_near == DEFAULT_Z_NEAR as i64,
            c.projection_info.z_far == DEFAULT_Z_FAR as i64,
            c.projection_info.aspect_ratio == if screen_height == 0 {
                FX_ONE as i64
            } else {
                fx_div_s(screen_width, screen_height)
            },
    {
        let view_info = ViewInfo::initialize();
        let projection_info = ProjectionInfo::initialize(screen_width, screen_height);
        let view_projection_matrix = opengl_to_wgpu_matrix().mul(
            projection_info.get_projection_matrix(),
        ).mul(view_info.get_view_matrix());
        Camera { view_info, projection_info, view_projection_matrix }
    }

    /// Recomputes the combined matrix from the two caches.
    fn build_view_projection_matrix(&self) -> (m: Matrix4)
        ensures
            m == combined_s(self.projection_info.projection_matrix, self.view_info.view_matrix),
    {
        opengl_to_wgpu_matrix().mul(self.projection_info.get_projection_matrix()).mul(
            self.view_info.get_view_matrix(),
        )
    }

    /// Stores the recomputed combined matrix.
    fn rebuild_view_projection_matrix(&mut self)
        ensures
            *final(self) == (Camera {
                view_projection_matrix: combined_s(
                    old(self).projection_info.projection_matrix,
                    old(self).view_info.view_matrix,
                ),
                ..*old(self)
            }),
    {
        self.view_projection_matrix = self.build_view_projection_matrix();
    }

    /// Stores a new aspect ratio and rebuilds the projection and combined
    /// caches.
    pub fn set_aspect_ratio(&mut self, arg: i64)
        ensures
            final(self).view_info == old(self).view_info,
            final(self).projection_info == (ProjectionInfo {
                aspect_ratio: arg,
                projection_matrix: mat4_perspective_s(
                    old(self).projection_info.vertical_fov.0,
                    arg,
                    old(self).projection_info.z_near,
                    old(self).projection_info.z_far,
                ),
                ..old(self).projection_info
            }),
            final(self).view_projection_matrix == combined_s(
                final(self).projection_info.projection_matrix,
                final(self).view_info.view_matrix,
            ),
            vi_wf(old(self).view_info) ==> camera_wf(*final(self)),
    {
        self.projection_info.set_aspect_ratio(arg);
        self.rebuild_view_projection_matrix();
    }

    /// The cached combined view-projection matrix; on a well-formed camera
    /// it equals the fresh recomputation from the canonical state.
    pub fn get_view_projection_matrix(&self) -> (m: Matrix4)
        ensures
            m == self.view_projection_matrix,
            camera_wf(*self) ==> m == combined_s(
                mat4_perspective_s(
                    self.projection_info.vertical_fov.0,
                    self.projection_info.aspect_ratio,
                    self.projection_info.z_near,
                    self.projection_info.z_far,
                ),
                build_view_matrix_s(
                    quat_mul_s(
                        self.view_info.current_rotation,
                        self.view_info.rotation_modifier,
                    ),
                    view_offset_s(self.view_info),
                ),
            ),
    {
        self.view_projection_matrix
    }

    /// The inverse of the combined matrix, or a failure value when it is
    /// singular.
    pub fn get_view_projection_matrix_inverse(&self) -> (r: Result<Matrix4, ()>)
        ensures
            crate::matrix::mat4_det_s(self.view_projection_matrix) == 0 ==> r == Result::<
                Matrix4,
                (),
            >::Err(()),
            crate::matrix::mat4_det_s(self.view_projection_matrix) != 0 ==> r == Result::<
                Matrix4,
                (),
            >::Ok(crate::matrix::mat4_invert_s(self.view_projection_matrix)),
    {
        self.get_view_projection_matrix().invert()
    }

    /// Commits the in-progress rotation, as `spec_solidify` says: the
    /// modifier folds into the committed rotation and resets to the
    /// identity, the caches are rebuilt, and the horizontal-reverse flag
    /// is recomputed. Must be called exactly once when a rotation gesture
    /// ends.
    pub fn solidify_view_info(&mut self)
        ensures
            *final(self) == spec_solidify(*old(self)),
            pi_wf(old(self).projection_info) ==> camera_wf(*final(self)),
    {
        let ident = Quaternion::identity();
        if !(self.view_info.rotation_modifier == ident) {
            self.view_info.current_rotation = self.view_info.current_rotation.mul(
                self.view_info.rotation_modifier,
            ).normalize();
        }
        self.view_info.rotation_modifier = ident;
        self.view_info.rebuild_view_matrix();
        let up = self.view_info.view_matrix.y().truncate();
        if Vector3::dot(up, Vector3::unit_y()) < 0 {
            self.view_info.should_reverse = true;
        } else {
            self.view_info.should_reverse = false;
        }
        self.rebuild_view_projection_matrix();
    }

    /// Updates the aspect ratio to `new_width / new_height` and rebuilds
    /// the caches. Degenerate sizes must be rejected by the caller.
    pub fn handle_window_resize(&mut self, new_width: i64, new_height: i64)
        requires
            new_width > 0,
            new_height > 0,
        ensures
            final(self).view_info == old(self).view_info,
            final(self).projection_info == (ProjectionInfo {
                aspect_ratio: fx_div_s(new_width, new_height),
                projection_matrix: mat4_perspective_s(
                    old(self).projection_info.vertical_fov.0,
                    fx_div_s(new_width, new_height),
                    old(self).projection_info.z_near,
                    old(self).projection_info.z_far,
                ),
                ..old(self).projection_info
            }),
            final(self).view_projection_matrix == combined_s(
                final(self).projection_info.projection_matrix,
                final(self).view_info.view_matrix,
            ),
            vi_wf(old(self).view_info) ==> camera_wf(*final(self)),
    {
        let aspect = fx_div(new_width, new_height);
        self.set_aspect_ratio(aspect);
    }

    /// Stores a new in-progress rotation and rebuilds the view and
    /// combined caches.
    fn set_rotation_modifier(&mut self, val: Quaternion)
        ensures
            *final(self) == (Camera {
                view_info: (ViewInfo {
                    rotation_modifier: val,
                    view_matrix: build_view_matrix_s(
                        quat_mul_s(old(self).view_info.current_rotation, val),
                        view_offset_s(old(self).view_info),
                    ),
                    ..old(self).view_info
                }),
                view_projection_matrix: combined_s(
                    old(self).projection_info.projection_matrix,
                    build_view_matrix_s(
                        quat_mul_s(old(self).view_info.current_rotation, val),
                        view_offset_s(old(self).view_info),
                    ),
                ),
                ..*old(self)
            }),
    {
        self.view_info.set_rotation_modifier(val);
        self.rebuild_view_projection_matrix();
    }

    /// Distance to the near clipping plane.
    pub fn get_z_near(&self) -> (r: i64)
        ensures
            r == self.projection_info.z_near,
    {
        self.projection_info.z_near
    }

    /// Distance to the far clipping plane.
    pub fn get_z_far(&self) -> (r: i64)
        ensures
            r == self.projection_info.z_far,
    {
        self.projection_info.z_far
    }

    /// One turntable step, as `spec_turntable` says: stores the rotation
    /// computed from the pointer delta as the in-progress modifier and
    /// rebuilds the caches; it does not commit the rotation. Degenerate
    /// viewport sizes must be rejected by the caller.
    pub fn turntable_rotate(&mut self, delta_mouse: Vector2, window_size: (i64, i64))
        requires
            window_size.0 > 0,
            window_size.1 > 0,
        ensures
            *final(self) == spec_turntable(*old(self), delta_mouse, window_size.0, window_size.1),
            camera_wf(*old(self)) ==> camera_wf(*final(self)),
    {
        let x_angle_scale_factor = fx_div(FX_TWO_PI, window_size.0);
        let y_angle_scale_factor = fx_div(FX_PI, window_size.1);

        let current_rotation_matrix = Matrix3::from_quaternion(self.view_info.current_rotation);
        match current_rotation_matrix.invert() {
            Err(_) => {
                // A singular rotation matrix: hold the previous state for
                // this frame rather than produce garbage.
            },
            Ok(current_rotation_matrix_inverse) => {
                // Axis around which we rotate to get up/down rotation.
                let up_down_rotation_axis = current_rotation_matrix_inverse.x();
                // Axis around which we rotate to get side rotation.
                let side_side_rotation_axis = Vector3::unit_y();

                let up_down_rotation_angle = fx_mul(y_angle_scale_factor, delta_mouse.y);
                let side_scale = if self.view_info.should_reverse {
                    fx_neg(x_angle_scale_factor)
                } else {
                    x_angle_scale_factor
                };
                let side_side_rotation_angle = fx_mul(side_scale, delta_mouse.x);

                let up_down_rotation = Quaternion::rotation_from_axis_angle(
                    up_down_rotation_axis,
                    Radians(up_down_rotation_angle),
                );
                let side_side_rotation = Quaternion::rotation_from_axis_angle(
                    side_side_rotation_axis,
                    Radians(side_side_rotation_angle),
                );
                let rotation_modifier = up_down_rotation.mul(side_side_rotation).normalize();
                self.set_rotation_modifier(rotation_modifier);
            },
        }
    }
}

/// Whether the input state asks for a turntable rotation: the rotate key
/// and the primary pointer button are both down.
pub fn viewport_camera_rotate(rotate_key_down: bool, primary_button_down: bool) -> (r: bool)
    ensures
        r == (rotate_key_down && primary_button_down),
{
    rotate_key_down && primary_button_down
}

/// Decides the turntable gesture transition for one frame: while the
/// rotate input is held the gesture is (or stays) active and the camera is
/// untouched; when it is released after an active gesture the in-progress
/// rotation is committed exactly once. Returns whether a gesture is active
/// after this frame.
pub fn handle_shortcut_viewport_camera_rotate(
    camera: &mut Camera,
    doing_turntable: bool,
    rotate_input: bool,
) -> (now_doing: bool)
    ensures
        now_doing == rotate_input,
        rotate_input ==> *final(camera) == *old(camera),
        !rotate_input && doing_turntable ==> *final(camera) == spec_solidify(*old(camera)),
        !rotate_input && !doing_turntable ==> *final(camera) == *old(camera),
{
    if rotate_input {
        return true;
    }
    if doing_turntable {
        camera.solidify_view_info();
    }
    false
}

/// Law: committing twice in a row with no intervening rotation changes
/// nothing after the first commit; the second commit is a no-op because
/// the modifier is already the identity.
pub proof fn lemma_solidify_idempotent(c: Camera)
    ensures
        spec_solidify(spec_solidify(c)) == spec_solidify(c),
{
}

/// Law: a commit resets the modifier to the identity and replaces the
/// committed rotation by the normalized product of the old rotation and
/// the last modifier; when the modifier is already the identity the
/// product would change nothing and the rotation is kept as it is.
pub proof fn lemma_solidify_commits(c: Camera)
    ensures
        spec_solidify(c).view_info.rotation_modifier == quat_identity_s(),
        c.view_info.rotation_modifier != quat_identity_s() ==> spec_solidify(
            c,
        ).view_info.current_rotation == quat_normalize_s(
            quat_mul_s(c.view_info.current_rotation, c.view_info.rotation_modifier),
        ),
        c.view_info.rotation_modifier == quat_identity_s() ==> spec_solidify(
            c,
        ).view_info.current_rotation == c.view_info.current_rotation,
{
}

/// Law: on a well-formed camera the cached view-projection matrix equals
/// the fresh recomputation
/// `remap * projection(fov, aspect, near, far) * view(rotation * modifier, offset)`.
pub proof fn lemma_matrix_cache_consistency(c: Camera)
    requires
        camera_wf(c),
    ensures
        c.view_projection_matrix == mat4_mul_s(
            mat4_mul_s(
                opengl_to_wgpu_s(),
                mat4_perspective_s(
                    c.projection_info.vertical_fov.0,
                    c.projection_info.aspect_ratio,
                    c.projection_info.z_near,
                    c.projection_info.z_far,
                ),
            ),
            build_view_matrix_s(
                quat_mul_s(c.view_info.current_rotation, c.view_info.rotation_modifier),
                view_offset_s(c.view_info),
            ),
        ),
{
}

/// Law: a turntable step with a zero pointer delta on an idle camera (one
/// with no in-progress rotation) leaves the whole camera unchanged: the
/// computed modifier reduces to the identity exactly.
#[verifier::rlimit(100)]
pub proof fn lemma_zero_delta_rotation(c: Camera, width: i64, height: i64)
    requires
        camera_wf(c),
        c.view_info.rotation_modifier == quat_identity_s(),
    ensures
        spec_turntable(c, Vector2 { x: 0, y: 0 }, width, height) == c,
{
    let rot_mat = mat3_from_quat_s(c.view_info.current_rotation);
    if mat3_det_s(rot_mat) != 0 {
        let inv = mat3_invert_s(rot_mat);
        let up_down_axis = Vector3 { x: inv.c0r0, y: inv.c0r1, z: inv.c0r2 };
        let side_side_axis = Vector3 { x: 0, y: FX_ONE as i64, z: 0 };
        let x_scale = fx_div_s(FX_TWO_PI, width);
        let y_scale = fx_div_s(FX_PI, height);
        let side_scale = if c.view_info.should_reverse {
            fx_neg_s(x_scale)
        } else {
            x_scale
        };
        crate::quaternion::lemma_fx_mul_zero(y_scale);
        crate::quaternion::lemma_fx_mul_zero(side_scale);
        assert(crate::fixed::fx_divi_s(0, 2) == 0);
        assert(crate::trig::fx_sin_s(0) == 0);
        assert(crate::trig::fx_cos_s(0) == FX_ONE);
        crate::quaternion::lemma_fx_mul_zero(up_down_axis.x);
        crate::quaternion::lemma_fx_mul_zero(up_down_axis.y);
        crate::quaternion::lemma_fx_mul_zero(up_down_axis.z);
        crate::quaternion::lemma_fx_mul_zero(side_side_axis.x);
        crate::quaternion::lemma_fx_mul_zero(side_side_axis.y);
        crate::quaternion::lemma_fx_mul_zero(side_side_axis.z);
        assert(quat_from_axis_angle_s(up_down_axis, 0) == quat_identity_s());
        assert(quat_from_axis_angle_s(side_side_axis, 0) == quat_identity_s());
        crate::quaternion::lemma_quat_mul_identity_right(quat_identity_s());
        crate::quaternion::lemma_quat_normalize_identity();
        let modifier = quat_normalize_s(
            quat_mul_s(
                quat_from_axis_angle_s(up_down_axis, fx_mul_s(y_scale, 0)),
                quat_from_axis_angle_s(side_side_axis, fx_mul_s(side_scale, 0)),
            ),
        );
        assert(modifier == quat_identity_s());
        let view2 = build_view_matrix_s(
            quat_mul_s(c.view_info.current_rotation, modifier),
            view_offset_s(c.view_info),
        );
        assert(view2 == c.view_info.view_matrix);
        assert(combined_s(c.projection_info.projection_matrix, view2)
            == c.view_projection_matrix);
    }
}

/// Law: the top-left entry of the perspective matrix is the cotangent of
/// half the field of view divided by the aspect ratio, so a resize
/// recomputes it from the new aspect ratio while the clip distances stay
/// as they were.
pub proof fn lemma_perspective_top_left(fovy_deg: i64, aspect: i64, near: i64, far: i64)
    ensures
        mat4_perspective_s(fovy_deg, aspect, near, far).c0r0 == fx_div_s(
            fx_div_s(
                crate::trig::fx_cos_s(
                    crate::fixed::fx_divi_s(crate::trig::deg_to_rad_s(fovy_deg), 2),
                ),
                crate::trig::fx_sin_s(
                    crate::fixed::fx_divi_s(crate::trig::deg_to_rad_s(fovy_deg), 2),
                ),
            ),
            aspect,
        ),
        mat4_perspective_s(fovy_deg, aspect, near, far).c1r1 == fx_div_s(
            crate::trig::fx_cos_s(crate::fixed::fx_divi_s(crate::trig::deg_to_rad_s(fovy_deg), 2)),
            crate::trig::fx_sin_s(crate::fixed::fx_divi_s(crate::trig::deg_to_rad_s(fovy_deg), 2)),
        ),
{
}

} // verus!
