//! The camera: view and projection state, navigation, and the precomputed
//! per-pixel ray-direction table.
//!
//! The view matrix is the standard look-at matrix and the projection is the
//! standard perspective matrix from a vertical field of view.  Both inverses
//! are written in closed form from the same parameters; the camera's
//! parameter ranges (positive near clip, far beyond near, field of view
//! strictly between 0 and 180 degrees) keep them meaningful.

use vstd::prelude::*;
use crate::fx::{
    fx_add_s, fx_cos, fx_cos_s, fx_div, fx_div_s, fx_mul, fx_mul_s, fx_neg, fx_neg_s, fx_of_int_s,
    fx_of_usize, fx_sin, fx_sin_s, fx_sub, fx_sub_s, FX_ONE, FX_PI, FX_TWO, SCALE,
};
use crate::mat::{
    m4_identity, m4_identity_s, m4_mul_v4, m4_mul_v4_s, quat_axis_angle, quat_axis_angle_s,
    quat_mul, quat_mul_s, quat_normalize, quat_normalize_s, quat_rotate, quat_rotate_s, Mat4, Quat,
};
use crate::vec::{
    v3_add, v3_add_s, v3_cross, v3_cross_s, v3_dot, v3_dot_s, v3_normalize, v3_normalize_s,
    v3_scale, v3_scale_s, v3_sub, v3_sub_s, Vec3, Vec4,
};

verus! {

/// Movement speed, in units per second.
pub const FX_SPEED: i64 = 327680;

/// Cursor sensitivity: raw cursor units to radians.
pub const FX_SENSITIVITY: i64 = 131;

/// World up.
pub open spec fn up_dir_s() -> Vec3 {
    Vec3 { x: 0, y: FX_ONE, z: 0 }
}

/// Navigation state for one frame: whether the look control is held, the
/// cursor delta since the last frame, and the held directional keys.
#[derive(Clone, Copy, PartialEq, Eq, Structural, Debug)]
pub struct NavigationInput {
    pub looking: bool,
    pub cursor_dx: i64,
    pub cursor_dy: i64,
    pub key_forward: bool,
    pub key_back: bool,
    pub key_left: bool,
    pub key_right: bool,
    pub key_down: bool,
    pub key_up: bool,
}

pub struct Camera {
    pub mat_projection: Mat4,
    pub mat_view: Mat4,
    pub mat_inverse_projection: Mat4,
    pub mat_inverse_view: Mat4,

    /// Vertical field of view in degrees.
    pub vertical_fov: i64,
    pub near_clip: i64,
    pub far_clip: i64,
    pub viewport_width: usize,
    pub viewport_height: usize,

    pub position: Vec3,
    /// Unit forward direction; renormalized after every rotation.
    pub forward_direction: Vec3,

    /// One ray direction per pixel, row-major; empty until the first
    /// recomputation.
    pub ray_directions: Vec<Vec3>,
}

/// Look-at view matrix from eye position, forward direction and world up.
pub open spec fn view_mat_s(eye: Vec3, fwd: Vec3) -> Mat4 {
    let s: Vec3 = v3_normalize_s(v3_cross_s(fwd, up_dir_s()));
    let u: Vec3 = v3_cross_s(s, fwd);
    Mat4 {
        m00: s.x, m01: s.y, m02: s.z, m03: fx_neg_s(v3_dot_s(s, eye)) as i64,
        m10: u.x, m11: u.y, m12: u.z, m13: fx_neg_s(v3_dot_s(u, eye)) as i64,
        m20: fx_neg_s(fwd.x as int) as i64, m21: fx_neg_s(fwd.y as int) as i64,
        m22: fx_neg_s(fwd.z as int) as i64, m23: v3_dot_s(fwd, eye) as i64,
        m30: 0, m31: 0, m32: 0, m33: FX_ONE,
    }
}

/// Closed-form inverse of the look-at matrix: the transposed rotation with
/// the eye position as translation.
pub open spec fn inv_view_mat_s(eye: Vec3, fwd: Vec3) -> Mat4 {
    let s: Vec3 = v3_normalize_s(v3_cross_s(fwd, up_dir_s()));
    let u: Vec3 = v3_cross_s(s, fwd);
    Mat4 {
        m00: s.x, m01: u.x, m02: fx_neg_s(fwd.x as int) as i64, m03: eye.x,
        m10: s.y, m11: u.y, m12: fx_neg_s(fwd.y as int) as i64, m13: eye.y,
        m20: s.z, m21: u.z, m22: fx_neg_s(fwd.z as int) as i64, m23: eye.z,
        m30: 0, m31: 0, m32: 0, m33: FX_ONE,
    }
}

/// Cotangent of half the field of view, with the angle converted from
/// degrees to radians.
pub open spec fn cot_half_fov_s(fov: int) -> int {
    let rad: int = fx_div_s(fx_mul_s(fov, FX_PI as int), 180 * (SCALE as int));
    let half: int = fx_div_s(rad, FX_TWO as int);
    fx_div_s(fx_cos_s(half), fx_sin_s(half))
}

/// Perspective projection matrix from a vertical field of view in degrees,
/// the viewport size in pixels, and the clip distances.
pub open spec fn proj_mat_s(fov: int, w: int, h: int, near: int, far: int) -> Mat4 {
    let sy: int = cot_half_fov_s(fov);
    let sx: int = fx_mul_s(sy, fx_div_s(fx_of_int_s(h), fx_of_int_s(w)));
    let a: int = fx_neg_s(fx_div_s(fx_add_s(far, near), fx_sub_s(far, near)));
    let b: int = fx_neg_s(fx_div_s(fx_mul_s(FX_TWO as int, fx_mul_s(far, near)), fx_sub_s(far, near)));
    Mat4 {
        m00: sx as i64, m01: 0, m02: 0, m03: 0,
        m10: 0, m11: sy as i64, m12: 0, m13: 0,
        m20: 0, m21: 0, m22: a as i64, m23: b as i64,
        m30: 0, m31: 0, m32: -65536i64, m33: 0,
    }
}

/// Closed-form inverse of the perspective matrix.
pub open spec fn inv_proj_mat_s(fov: int, w: int, h: int, near: int, far: int) -> Mat4 {
    let sy: int = cot_half_fov_s(fov);
    let sx: int = fx_mul_s(sy, fx_div_s(fx_of_int_s(h), fx_of_int_s(w)));
    let a: int = fx_neg_s(fx_div_s(fx_add_s(far, near), fx_sub_s(far, near)));
    let b: int = fx_neg_s(fx_div_s(fx_mul_s(FX_TWO as int, fx_mul_s(far, near)), fx_sub_s(far, near)));
    Mat4 {
        m00: fx_div_s(FX_ONE as int, sx) as i64, m01: 0, m02: 0, m03: 0,
        m10: 0, m11: fx_div_s(FX_ONE as int, sy) as i64, m12: 0, m13: 0,
        m20: 0, m21: 0, m22: 0, m23: -65536i64,
        m30: 0, m31: 0, m32: fx_div_s(FX_ONE as int, b) as i64, m33: fx_div_s(a, b) as i64,
    }
}

/// Pixel coordinate remapped to normalized device coordinates in [-1, 1]:
/// `(i / n) * 2 - 1`, with no half-pixel offset.
pub open spec fn ndc_s(i: int, n: int) -> int {
    fx_sub_s(fx_mul_s(fx_div_s(fx_of_int_s(i), fx_of_int_s(n)), FX_TWO as int), FX_ONE as int)
}

/// World-space ray direction for pixel (x, y): unproject the pixel's
/// normalized device coordinates through the inverse projection,
/// perspective-divide, carry the view-space direction through the inverse
/// view rotation, and normalize.
pub open spec fn ray_dir_s(inv_proj: Mat4, inv_view: Mat4, w: int, h: int, x: int, y: int) -> Vec3 {
    let cx: int = ndc_s(x, w);
    let cy: int = ndc_s(y, h);
    let target: Vec4 = m4_mul_v4_s(
        inv_proj,
        Vec4 { x: cx as i64, y: cy as i64, z: FX_ONE, w: FX_ONE },
    );
    let dx: int = fx_div_s(target.x as int, target.w as int);
    let dy: int = fx_div_s(target.y as int, target.w as int);
    let dz: int = fx_div_s(target.z as int, target.w as int);
    let world: Vec4 = m4_mul_v4_s(
        inv_view,
        Vec4 { x: dx as i64, y: dy as i64, z: dz as i64, w: 0 },
    );
    v3_normalize_s(Vec3 { x: world.x, y: world.y, z: world.z })
}

/// The ray-direction table holds one entry per pixel of the current
/// viewport, row-major, each the unprojected direction for its pixel.
pub open spec fn ray_table_ok(c: Camera) -> bool {
    &&& c.ray_directions@.len() == (c.viewport_width as int) * (c.viewport_height as int)
    &&& forall|x: int, y: int|
        0 <= x < c.viewport_width && 0 <= y < c.viewport_height ==> c.ray_directions@[x + y
            * (c.viewport_width as int)] == #[trigger] ray_dir_s(
            c.mat_inverse_projection,
            c.mat_inverse_view,
            c.viewport_width as int,
            c.viewport_height as int,
            x,
            y,
        )
}

/// All derived state — the four matrices and the ray table — agrees with
/// the camera's position, orientation, field of view and viewport.
pub open spec fn derived_ok(c: Camera) -> bool {
    &&& c.mat_view == view_mat_s(c.position, c.forward_direction)
    &&& c.mat_inverse_view == inv_view_mat_s(c.position, c.forward_direction)
    &&& c.mat_projection == proj_mat_s(
        c.vertical_fov as int,
        c.viewport_width as int,
        c.viewport_height as int,
        c.near_clip as int,
        c.far_clip as int,
    )
    &&& c.mat_inverse_projection == inv_proj_mat_s(
        c.vertical_fov as int,
        c.viewport_width as int,
        c.viewport_height as int,
        c.near_clip as int,
        c.far_clip as int,
    )
    &&& ray_table_ok(c)
}

impl Default for Camera {
    /// Identity matrices and an empty ray table until the first
    /// recomputation; position (0, 0, 6) looking along -z.
    fn default() -> (r: Camera)
        ensures
            r.mat_projection == m4_identity_s(),
            r.mat_view == m4_identity_s(),
            r.mat_inverse_projection == m4_identity_s(),
            r.mat_inverse_view == m4_identity_s(),
            r.vertical_fov == 45 * FX_ONE,
            r.near_clip == 6554,
            r.far_clip == 100 * FX_ONE,
            r.viewport_width == 100,
            r.viewport_height == 100,
            r.position == (Vec3 { x: 0, y: 0, z: 393216 }),
            r.forward_direction == (Vec3 { x: 0, y: 0, z: -65536i64 }),
            r.ray_directions@ =~= Seq::<Vec3>::empty(),
    {
        Camera {
            mat_projection: m4_identity(),
            mat_view: m4_identity(),
            mat_inverse_projection: m4_identity(),
            mat_inverse_view: m4_identity(),
            vertical_fov: 45 * FX_ONE,
            near_clip: 6554,
            far_clip: 100 * FX_ONE,
            viewport_width: 100,
            viewport_height: 100,
            position: Vec3 { x: 0, y: 0, z: 6 * FX_ONE },
            forward_direction: Vec3 { x: 0, y: 0, z: -FX_ONE },
            ray_directions: Vec::new(),
        }
    }
}

/// Per-pixel unprojection; the executable mirror of `ray_dir_s`.
fn ray_dir(inv_proj: &Mat4, inv_view: &Mat4, w: usize, h: usize, x: usize, y: usize) -> (r: Vec3)
    ensures
        r == ray_dir_s(*inv_proj, *inv_view, w as int, h as int, x as int, y as int),
{
    let cx: i64 = fx_sub(fx_mul(fx_div(fx_of_usize(x), fx_of_usize(w)), FX_TWO), FX_ONE);
    let cy: i64 = fx_sub(fx_mul(fx_div(fx_of_usize(y), fx_of_usize(h)), FX_TWO), FX_ONE);
    let target: Vec4 = m4_mul_v4(inv_proj, Vec4 { x: cx, y: cy, z: FX_ONE, w: FX_ONE });
    let dx: i64 = fx_div(target.x, target.w);
    let dy: i64 = fx_div(target.y, target.w);
    let dz: i64 = fx_div(target.z, target.w);
    let world: Vec4 = m4_mul_v4(inv_view, Vec4 { x: dx, y: dy, z: dz, w: 0 });
    v3_normalize(Vec3 { x: world.x, y: world.y, z: world.z })
}

impl Camera {
    fn recalculate_view(&mut self)
        ensures
            final(self).mat_view == view_mat_s(old(self).position, old(self).forward_direction),
            final(self).mat_inverse_view == inv_view_mat_s(
                old(self).position,
                old(self).forward_direction,
            ),
            final(self).mat_projection == old(self).mat_projection,
            final(self).mat_inverse_projection == old(self).mat_inverse_projection,
            final(self).vertical_fov == old(self).vertical_fov,
            final(self).near_clip == old(self).near_clip,
            final(self).far_clip == old(self).far_clip,
            final(self).viewport_width == old(self).viewport_width,
            final(self).viewport_height == old(self).viewport_height,
            final(self).position == old(self).position,
            final(self).forward_direction == old(self).forward_direction,
            final(self).ray_directions == old(self).ray_directions,
    {
        let eye: Vec3 = self.position;
        let fwd: Vec3 = self.forward_direction;
        let s: Vec3 = v3_normalize(v3_cross(fwd, Vec3 { x: 0, y: FX_ONE, z: 0 }));
        let u: Vec3 = v3_cross(s, fwd);
        self.mat_view = Mat4 {
            m00: s.x, m01: s.y, m02: s.z, m03: fx_neg(v3_dot(s, eye)),
            m10: u.x, m11: u.y, m12: u.z, m13: fx_neg(v3_dot(u, eye)),
            m20: fx_neg(fwd.x), m21: fx_neg(fwd.y), m22: fx_neg(fwd.z), m23: v3_dot(fwd, eye),
            m30: 0, m31: 0, m32: 0, m33: FX_ONE,
        };
        self.mat_inverse_view = Mat4 {
            m00: s.x, m01: u.x, m02: fx_neg(fwd.x), m03: eye.x,
            m10: s.y, m11: u.y, m12: fx_neg(fwd.y), m13: eye.y,
            m20: s.z, m21: u.z, m22: fx_neg(fwd.z), m23: eye.z,
            m30: 0, m31: 0, m32: 0, m33: FX_ONE,
        };
    }

    fn recalculate_projection(&mut self)
        ensures
            final(self).mat_projection == proj_mat_s(
                old(self).vertical_fov as int,
                old(self).viewport_width as int,
                old(self).viewport_height as int,
                old(self).near_clip as int,
                old(self).far_clip as int,
            ),
            final(self).mat_inverse_projection == inv_proj_mat_s(
                old(self).vertical_fov as int,
                old(self).viewport_width as int,
                old(self).viewport_height as int,
                old(self).near_clip as int,
                old(self).far_clip as int,
            ),
            final(self).mat_view == old(self).mat_view,
            final(self).mat_inverse_view == old(self).mat_inverse_view,
            final(self).vertical_fov == old(self).vertical_fov,
            final(self).near_clip == old(self).near_clip,
            final(self).far_clip == old(self).far_clip,
            final(self).viewport_width == old(self).viewport_width,
            final(self).viewport_height == old(self).viewport_height,
            final(self).position == old(self).position,
            final(self).forward_direction == old(self).forward_direction,
            final(self).ray_directions == old(self).ray_directions,
    {
        let rad: i64 = fx_div(fx_mul(self.vertical_fov, FX_PI), 180 * SCALE);
        let half: i64 = fx_div(rad, FX_TWO);
        let sy: i64 = fx_div(fx_cos(half), fx_sin(half));
        let sx: i64 = fx_mul(
            sy,
            fx_div(fx_of_usize(self.viewport_height), fx_of_usize(self.viewport_width)),
        );
        let a: i64 = fx_neg(fx_div(
            crate::fx::fx_add(self.far_clip, self.near_clip),
            fx_sub(self.far_clip, self.near_clip),
        ));
        let b: i64 = fx_neg(fx_div(
            fx_mul(FX_TWO, fx_mul(self.far_clip, self.near_clip)),
            fx_sub(self.far_clip, self.near_clip),
        ));
        self.mat_projection = Mat4 {
            m00: sx, m01: 0, m02: 0, m03: 0,
            m10: 0, m11: sy, m12: 0, m13: 0,
            m20: 0, m21: 0, m22: a, m23: b,
            m30: 0, m31: 0, m32: -FX_ONE, m33: 0,
        };
        self.mat_inverse_projection = Mat4 {
            m00: fx_div(FX_ONE, sx), m01: 0, m02: 0, m03: 0,
            m10: 0, m11: fx_div(FX_ONE, sy), m12: 0, m13: 0,
            m20: 0, m21: 0, m22: 0, m23: -FX_ONE,
            m30: 0, m31: 0, m32: fx_div(FX_ONE, b), m33: fx_div(a, b),
        };
    }

    fn recalculate_ray_directions(&mut self)
        ensures
            final(self).ray_directions@.len() == (old(self).viewport_width as int)
                * (old(self).viewport_height as int),
            forall|x: int, y: int|
                0 <= x < old(self).viewport_width && 0 <= y < old(self).viewport_height
                    ==> final(self).ray_directions@[x + y * (old(self).viewport_width as int)]
                    == #[trigger] ray_dir_s(
                    old(self).mat_inverse_projection,
                    old(self).mat_inverse_view,
                    old(self).viewport_width as int,
                    old(self).viewport_height as int,
                    x,
                    y,
                ),
            final(self).mat_view == old(self).mat_view,
            final(self).mat_inverse_view == old(self).mat_inverse_view,
            final(self).mat_projection == old(self).mat_projection,
            final(self).mat_inverse_projection == old(self).mat_inverse_projection,
            final(self).vertical_fov == old(self).vertical_fov,
            final(self).near_clip == old(self).near_clip,
            final(self).far_clip == old(self).far_clip,
            final(self).viewport_width == old(self).viewport_width,
            final(self).viewport_height == old(self).viewport_height,
            final(self).position == old(self).position,
            final(self).forward_direction == old(self).forward_direction,
    {
        let w: usize = self.viewport_width;
        let h: usize = self.viewport_height;
        let inv_proj: Mat4 = self.mat_inverse_projection;
        let inv_view: Mat4 = self.mat_inverse_view;
        let mut dirs: Vec<Vec3> = Vec::new();
        let mut y: usize = 0;
        while y < h
            invariant
                y <= h,
                dirs@.len() == (y as int) * (w as int),
                forall|xx: int, yy: int|
                    0 <= xx < w && 0 <= yy < y ==> dirs@[xx + yy * (w as int)]
                        == #[trigger] ray_dir_s(inv_proj, inv_view, w as int, h as int, xx, yy),
            decreases h - y,
        {
            let mut x: usize = 0;
            while x < w
                invariant
                    y < h,
                    x <= w,
                    dirs@.len() == (y as int) * (w as int) + x,
                    forall|xx: int, yy: int|
                        0 <= xx < w && 0 <= yy < y ==> dirs@[xx + yy * (w as int)]
                            == #[trigger] ray_dir_s(inv_proj, inv_view, w as int, h as int, xx, yy),
                    forall|xx: int|
                        0 <= xx < x ==> dirs@[xx + (y as int) * (w as int)] == #[trigger] ray_dir_s(
                            inv_proj,
                            inv_view,
                            w as int,
                            h as int,
                            xx,
                            y as int,
                        ),
                decreases w - x,
            {
                dirs.push(ray_dir(&inv_proj, &inv_view, w, h, x, y));
                proof {
                    assert forall|xx: int, yy: int| 0 <= xx < w && 0 <= yy < y implies dirs@[xx + yy
                        * (w as int)] == #[trigger] ray_dir_s(
                        inv_proj,
                        inv_view,
                        w as int,
                        h as int,
                        xx,
                        yy,
                    ) by {
                        lemma_row_major_bound(xx, yy, w as int, y as int);
                    }
                }
                x = x + 1;
            }
            y = y + 1;
            proof {
                assert((y as int) * (w as int) == ((y - 1) as int) * (w as int) + (w as int))
                    by (nonlinear_arith);
                assert forall|xx: int, yy: int| 0 <= xx < w && 0 <= yy < y implies dirs@[xx + yy * (
                w as int)] == #[trigger] ray_dir_s(inv_proj, inv_view, w as int, h as int, xx, yy) by {
                    if yy == y - 1 {
                        assert(dirs@[xx + yy * (w as int)] == ray_dir_s(
                            inv_proj,
                            inv_view,
                            w as int,
                            h as int,
                            xx,
                            yy,
                        ));
                    }
                }
            }
        }
        proof {
            assert((h as int) * (w as int) == (w as int) * (h as int)) by (nonlinear_arith);
        }
        self.ray_directions = dirs;
    }
}

/// What `on_resize` leaves behind: a call with the current dimensions is a
/// no-op; any other call installs the new viewport and recomputes all
/// derived state, leaving position and orientation untouched.
pub open spec fn resize_post(c0: Camera, c1: Camera, width: usize, height: usize) -> bool {
    if c0.viewport_width == width && c0.viewport_height == height {
        c1 == c0
    } else {
        &&& c1.viewport_width == width
        &&& c1.viewport_height == height
        &&& c1.position == c0.position
        &&& c1.forward_direction == c0.forward_direction
        &&& c1.vertical_fov == c0.vertical_fov
        &&& c1.near_clip == c0.near_clip
        &&& c1.far_clip == c0.far_clip
        &&& derived_ok(c1)
    }
}

/// Which directional key applies, by priority: forward, back, left, right,
/// down, up; at most one translation per update.
pub open spec fn any_key_s(input: NavigationInput) -> bool {
    input.key_forward || input.key_back || input.key_left || input.key_right || input.key_down
        || input.key_up
}

/// Position after one update: one step along the selected direction, at
/// `FX_SPEED` units per second.  The right axis is the unnormalized cross
/// product of forward and up.
pub open spec fn translated_s(pos: Vec3, fwd: Vec3, input: NavigationInput, dt: int) -> Vec3 {
    let right: Vec3 = v3_cross_s(fwd, up_dir_s());
    let step: int = fx_mul_s(FX_SPEED as int, dt);
    if input.key_forward {
        v3_add_s(pos, v3_scale_s(fwd, step))
    } else if input.key_back {
        v3_sub_s(pos, v3_scale_s(fwd, step))
    } else if input.key_left {
        v3_sub_s(pos, v3_scale_s(right, step))
    } else if input.key_right {
        v3_add_s(pos, v3_scale_s(right, step))
    } else if input.key_down {
        v3_sub_s(pos, v3_scale_s(up_dir_s(), step))
    } else if input.key_up {
        v3_add_s(pos, v3_scale_s(up_dir_s(), step))
    } else {
        pos
    }
}

/// Forward direction after one update: pitch about the current right axis
/// composed with yaw about world up, applied as a normalized quaternion
/// product, then renormalized.
pub open spec fn rotated_forward_s(fwd: Vec3, input: NavigationInput) -> Vec3 {
    if input.cursor_dx == 0 && input.cursor_dy == 0 {
        fwd
    } else {
        let right: Vec3 = v3_cross_s(fwd, up_dir_s());
        let pitch_delta: int = fx_mul_s(input.cursor_dy as int, FX_SENSITIVITY as int);
        let yaw_delta: int = fx_mul_s(input.cursor_dx as int, FX_SENSITIVITY as int);
        let pitch_quat: Quat = quat_axis_angle_s(fx_neg_s(pitch_delta), right);
        let yaw_quat: Quat = quat_axis_angle_s(fx_neg_s(yaw_delta), up_dir_s());
        let rotation: Quat = quat_normalize_s(quat_mul_s(pitch_quat, yaw_quat));
        v3_normalize_s(quat_rotate_s(rotation, fwd))
    }
}

/// Whether an update with this input moves the camera at all.
pub open spec fn update_moved_s(input: NavigationInput) -> bool {
    any_key_s(input) || input.cursor_dx != 0 || input.cursor_dy != 0
}

/// What `on_update` leaves behind: nothing happens unless the look control
/// is held and some input is active; otherwise the position and forward
/// direction take their one-step updates and all derived state is
/// recomputed.
pub open spec fn update_post(
    c0: Camera,
    c1: Camera,
    dt: int,
    input: NavigationInput,
    moved: bool,
) -> bool {
    if !input.looking || !update_moved_s(input) {
        c1 == c0 && !moved
    } else {
        &&& moved
        &&& c1.position == translated_s(c0.position, c0.forward_direction, input, dt)
        &&& c1.forward_direction == rotated_forward_s(c0.forward_direction, input)
        &&& c1.vertical_fov == c0.vertical_fov
        &&& c1.near_clip == c0.near_clip
        &&& c1.far_clip == c0.far_clip
        &&& c1.viewport_width == c0.viewport_width
        &&& c1.viewport_height == c0.viewport_height
        &&& derived_ok(c1)
    }
}

impl Camera {
    /// Install a new viewport size and recompute the view matrix, the
    /// projection matrix and the ray-direction table; a resize to the
    /// current size leaves the camera untouched.
    pub fn on_resize(&mut self, width: usize, height: usize)
        ensures
            resize_post(*old(self), *final(self), width, height),
    {
        if self.viewport_width == width && self.viewport_height == height {
            return ;
        }
        self.viewport_width = width;
        self.viewport_height = height;
        self.recalculate_view();
        self.recalculate_projection();
        self.recalculate_ray_directions();
    }

    /// Apply one frame of navigation input over `delta_time` seconds and
    /// report whether the camera moved.  While the look control is not
    /// held, input is consumed without effect.
    pub fn on_update(&mut self, delta_time: i64, input: NavigationInput) -> (moved: bool)
        ensures
            update_post(*old(self), *final(self), delta_time as int, input, moved),
    {
        if !input.looking {
            return false;
        }
        let mut moved: bool = false;
        let up_direction = Vec3 { x: 0, y: FX_ONE, z: 0 };
        let right_direction: Vec3 = v3_cross(self.forward_direction, up_direction);
        let step: i64 = fx_mul(FX_SPEED, delta_time);

        if input.key_forward {
            self.position = v3_add(self.position, v3_scale(self.forward_direction, step));
            moved = true;
        } else if input.key_back {
            self.position = v3_sub(self.position, v3_scale(self.forward_direction, step));
            moved = true;
        } else if input.key_left {
            self.position = v3_sub(self.position, v3_scale(right_direction, step));
            moved = true;
        } else if input.key_right {
            self.position = v3_add(self.position, v3_scale(right_direction, step));
            moved = true;
        } else if input.key_down {
            self.position = v3_sub(self.position, v3_scale(up_direction, step));
            moved = true;
        } else if input.key_up {
            self.position = v3_add(self.position, v3_scale(up_direction, step));
            moved = true;
        }

        if input.cursor_dx != 0 || input.cursor_dy != 0 {
            let pitch_delta: i64 = fx_mul(input.cursor_dy, FX_SENSITIVITY);
            let yaw_delta: i64 = fx_mul(input.cursor_dx, FX_SENSITIVITY);
            let pitch_quat: Quat = quat_axis_angle(fx_neg(pitch_delta), right_direction);
            let yaw_quat: Quat = quat_axis_angle(fx_neg(yaw_delta), up_direction);
            let rotation: Quat = quat_normalize(quat_mul(pitch_quat, yaw_quat));
            self.forward_direction = v3_normalize(quat_rotate(rotation, self.forward_direction));
            moved = true;
        }

        if moved {
            self.recalculate_view();
            self.recalculate_projection();
            self.recalculate_ray_directions();
        }
        moved
    }
}

/// Resizing is idempotent: a second resize to the same dimensions changes
/// nothing — in particular the ray-direction table is untouched.
pub proof fn lemma_resize_idempotent(c0: Camera, c1: Camera, c2: Camera, width: usize, height: usize)
    requires
        resize_post(c0, c1, width, height),
        resize_post(c1, c2, width, height),
    ensures
        c2 == c1,
        c2.ray_directions@ == c1.ray_directions@,
{
    assert(c1.viewport_width == width && c1.viewport_height == height);
}

/// A row-major pixel index stays below the row after its own.
proof fn lemma_row_major_bound(xx: int, yy: int, w: int, y: int)
    by (nonlinear_arith)
    requires
        0 <= xx < w,
        0 <= yy,
        yy < y,
    ensures
        0 <= xx + yy * w,
        xx + yy * w < y * w,
{
}

} // verus!
