//! Row-major 4x4 fixed-point matrices and quaternions.

use vstd::prelude::*;
use crate::fx::{
    fx_add, fx_add_s, fx_cos, fx_cos_s, fx_div, fx_div_s, fx_mul, fx_mul_s, fx_neg_s, fx_sin,
    fx_sin_s, fx_sqrt, fx_sqrt_s, fx_sub, fx_sub_s, FX_TWO,
};
use crate::vec::{v3_add, v3_add_s, v3_cross, v3_cross_s, v3_scale, v3_scale_s, Vec3, Vec4};

verus! {

/// A 4x4 matrix; field `mRC` is the entry at row `R`, column `C`.
#[derive(Clone, Copy, PartialEq, Eq, Structural, Debug)]
pub struct Mat4 {
    pub m00: i64, pub m01: i64, pub m02: i64, pub m03: i64,
    pub m10: i64, pub m11: i64, pub m12: i64, pub m13: i64,
    pub m20: i64, pub m21: i64, pub m22: i64, pub m23: i64,
    pub m30: i64, pub m31: i64, pub m32: i64, pub m33: i64,
}

pub open spec fn row_dot_s(a: int, b: int, c: int, d: int, v: Vec4) -> int {
    fx_add_s(
        fx_add_s(fx_mul_s(a, v.x as int), fx_mul_s(b, v.y as int)),
        fx_add_s(fx_mul_s(c, v.z as int), fx_mul_s(d, v.w as int)),
    )
}

pub open spec fn m4_mul_v4_s(m: Mat4, v: Vec4) -> Vec4 {
    Vec4 {
        x: row_dot_s(m.m00 as int, m.m01 as int, m.m02 as int, m.m03 as int, v) as i64,
        y: row_dot_s(m.m10 as int, m.m11 as int, m.m12 as int, m.m13 as int, v) as i64,
        z: row_dot_s(m.m20 as int, m.m21 as int, m.m22 as int, m.m23 as int, v) as i64,
        w: row_dot_s(m.m30 as int, m.m31 as int, m.m32 as int, m.m33 as int, v) as i64,
    }
}

fn row_dot(a: i64, b: i64, c: i64, d: i64, v: Vec4) -> (r: i64)
    ensures
        r as int == row_dot_s(a as int, b as int, c as int, d as int, v),
{
    fx_add(fx_add(fx_mul(a, v.x), fx_mul(b, v.y)), fx_add(fx_mul(c, v.z), fx_mul(d, v.w)))
}

pub fn m4_mul_v4(m: &Mat4, v: Vec4) -> (r: Vec4)
    ensures
        r == m4_mul_v4_s(*m, v),
{
    Vec4 {
        x: row_dot(m.m00, m.m01, m.m02, m.m03, v),
        y: row_dot(m.m10, m.m11, m.m12, m.m13, v),
        z: row_dot(m.m20, m.m21, m.m22, m.m23, v),
        w: row_dot(m.m30, m.m31, m.m32, m.m33, v),
    }
}

/// The identity matrix, with ones on the diagonal.
pub open spec fn m4_identity_s() -> Mat4 {
    Mat4 {
        m00: 65536, m01: 0, m02: 0, m03: 0,
        m10: 0, m11: 65536, m12: 0, m13: 0,
        m20: 0, m21: 0, m22: 65536, m23: 0,
        m30: 0, m31: 0, m32: 0, m33: 65536,
    }
}

pub fn m4_identity() -> (r: Mat4)
    ensures
        r == m4_identity_s(),
{
    Mat4 {
        m00: 65536, m01: 0, m02: 0, m03: 0,
        m10: 0, m11: 65536, m12: 0, m13: 0,
        m20: 0, m21: 0, m22: 65536, m23: 0,
        m30: 0, m31: 0, m32: 0, m33: 65536,
    }
}

/// A rotation quaternion `w + x i + y j + z k`.
#[derive(Clone, Copy, PartialEq, Eq, Structural, Debug)]
pub struct Quat {
    pub w: i64,
    pub x: i64,
    pub y: i64,
    pub z: i64,
}

/// Quaternion for a rotation of `angle` about `axis`; the axis is taken as
/// given, without renormalization.
pub open spec fn quat_axis_angle_s(angle: int, axis: Vec3) -> Quat {
    let half: int = fx_div_s(angle, FX_TWO as int);
    let s: int = fx_sin_s(half);
    Quat {
        w: fx_cos_s(half) as i64,
        x: fx_mul_s(s, axis.x as int) as i64,
        y: fx_mul_s(s, axis.y as int) as i64,
        z: fx_mul_s(s, axis.z as int) as i64,
    }
}

pub fn quat_axis_angle(angle: i64, axis: Vec3) -> (r: Quat)
    ensures
        r == quat_axis_angle_s(angle as int, axis),
{
    let half: i64 = fx_div(angle, FX_TWO);
    let s: i64 = fx_sin(half);
    Quat { w: fx_cos(half), x: fx_mul(s, axis.x), y: fx_mul(s, axis.y), z: fx_mul(s, axis.z) }
}

/// Hamilton product.
pub open spec fn quat_mul_s(p: Quat, q: Quat) -> Quat {
    Quat {
        w: fx_sub_s(
            fx_sub_s(
                fx_sub_s(fx_mul_s(p.w as int, q.w as int), fx_mul_s(p.x as int, q.x as int)),
                fx_mul_s(p.y as int, q.y as int),
            ),
            fx_mul_s(p.z as int, q.z as int),
        ) as i64,
        x: fx_sub_s(
            fx_add_s(
                fx_add_s(fx_mul_s(p.w as int, q.x as int), fx_mul_s(p.x as int, q.w as int)),
                fx_mul_s(p.y as int, q.z as int),
            ),
            fx_mul_s(p.z as int, q.y as int),
        ) as i64,
        y: fx_add_s(
            fx_add_s(
                fx_sub_s(fx_mul_s(p.w as int, q.y as int), fx_mul_s(p.x as int, q.z as int)),
                fx_mul_s(p.y as int, q.w as int),
            ),
            fx_mul_s(p.z as int, q.x as int),
        ) as i64,
        z: fx_add_s(
            fx_sub_s(
                fx_add_s(fx_mul_s(p.w as int, q.z as int), fx_mul_s(p.x as int, q.y as int)),
                fx_mul_s(p.y as int, q.x as int),
            ),
            fx_mul_s(p.z as int, q.w as int),
        ) as i64,
    }
}

pub fn quat_mul(p: Quat, q: Quat) -> (r: Quat)
    ensures
        r == quat_mul_s(p, q),
{
    Quat {
        w: fx_sub(
            fx_sub(fx_sub(fx_mul(p.w, q.w), fx_mul(p.x, q.x)), fx_mul(p.y, q.y)),
            fx_mul(p.z, q.z),
        ),
        x: fx_sub(
            fx_add(fx_add(fx_mul(p.w, q.x), fx_mul(p.x, q.w)), fx_mul(p.y, q.z)),
            fx_mul(p.z, q.y),
        ),
        y: fx_add(
            fx_add(fx_sub(fx_mul(p.w, q.y), fx_mul(p.x, q.z)), fx_mul(p.y, q.w)),
            fx_mul(p.z, q.x),
        ),
        z: fx_add(
            fx_sub(fx_add(fx_mul(p.w, q.z), fx_mul(p.x, q.y)), fx_mul(p.y, q.x)),
            fx_mul(p.z, q.w),
        ),
    }
}

pub open spec fn quat_norm2_s(q: Quat) -> int {
    fx_add_s(
        fx_add_s(fx_mul_s(q.w as int, q.w as int), fx_mul_s(q.x as int, q.x as int)),
        fx_add_s(fx_mul_s(q.y as int, q.y as int), fx_mul_s(q.z as int, q.z as int)),
    )
}

/// Normalization divides each component by the length; a quaternion whose
/// squared length truncates to zero maps to zero.
pub open spec fn quat_normalize_s(q: Quat) -> Quat {
    let len: int = fx_sqrt_s(quat_norm2_s(q));
    Quat {
        w: fx_div_s(q.w as int, len) as i64,
        x: fx_div_s(q.x as int, len) as i64,
        y: fx_div_s(q.y as int, len) as i64,
        z: fx_div_s(q.z as int, len) as i64,
    }
}

pub fn quat_normalize(q: Quat) -> (r: Quat)
    ensures
        r == quat_normalize_s(q),
{
    let len: i64 = fx_sqrt(fx_add(
        fx_add(fx_mul(q.w, q.w), fx_mul(q.x, q.x)),
        fx_add(fx_mul(q.y, q.y), fx_mul(q.z, q.z)),
    ));
    Quat { w: fx_div(q.w, len), x: fx_div(q.x, len), y: fx_div(q.y, len), z: fx_div(q.z, len) }
}

/// Rotate a vector by a quaternion: `v + w t + u x t` with `t = 2 u x v`,
/// where `u` is the quaternion's vector part.
pub open spec fn quat_rotate_s(q: Quat, v: Vec3) -> Vec3 {
    let u = Vec3 { x: q.x, y: q.y, z: q.z };
    let t = v3_scale_s(v3_cross_s(u, v), FX_TWO as int);
    v3_add_s(v3_add_s(v, v3_scale_s(t, q.w as int)), v3_cross_s(u, t))
}

pub fn quat_rotate(q: Quat, v: Vec3) -> (r: Vec3)
    ensures
        r == quat_rotate_s(q, v),
{
    let u = Vec3 { x: q.x, y: q.y, z: q.z };
    let t = v3_scale(v3_cross(u, v), FX_TWO);
    v3_add(v3_add(v, v3_scale(t, q.w)), v3_cross(u, t))
}

} // verus!
