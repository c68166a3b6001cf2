//! Three- and four-component fixed-point vectors.

use vstd::prelude::*;
use crate::fx::{
    fx_add, fx_add_s, fx_div, fx_div_s, fx_mul, fx_mul_s, fx_neg, fx_neg_s, fx_sqrt, fx_sqrt_s,
    fx_sub, fx_sub_s,
};

verus! {

#[derive(Clone, Copy, PartialEq, Eq, Structural, Debug)]
pub struct Vec3 {
    pub x: i64,
    pub y: i64,
    pub z: i64,
}

#[derive(Clone, Copy, PartialEq, Eq, Structural, Debug)]
pub struct Vec4 {
    pub x: i64,
    pub y: i64,
    pub z: i64,
    pub w: i64,
}

pub open spec fn v3_add_s(a: Vec3, b: Vec3) -> Vec3 {
    Vec3 {
        x: fx_add_s(a.x as int, b.x as int) as i64,
        y: fx_add_s(a.y as int, b.y as int) as i64,
        z: fx_add_s(a.z as int, b.z as int) as i64,
    }
}

pub open spec fn v3_sub_s(a: Vec3, b: Vec3) -> Vec3 {
    Vec3 {
        x: fx_sub_s(a.x as int, b.x as int) as i64,
        y: fx_sub_s(a.y as int, b.y as int) as i64,
        z: fx_sub_s(a.z as int, b.z as int) as i64,
    }
}

pub open spec fn v3_scale_s(v: Vec3, k: int) -> Vec3 {
    Vec3 {
        x: fx_mul_s(v.x as int, k) as i64,
        y: fx_mul_s(v.y as int, k) as i64,
        z: fx_mul_s(v.z as int, k) as i64,
    }
}

pub open spec fn v3_dot_s(a: Vec3, b: Vec3) -> int {
    fx_add_s(
        fx_add_s(fx_mul_s(a.x as int, b.x as int), fx_mul_s(a.y as int, b.y as int)),
        fx_mul_s(a.z as int, b.z as int),
    )
}

pub open spec fn v3_cross_s(a: Vec3, b: Vec3) -> Vec3 {
    Vec3 {
        x: fx_sub_s(fx_mul_s(a.y as int, b.z as int), fx_mul_s(a.z as int, b.y as int)) as i64,
        y: fx_sub_s(fx_mul_s(a.z as int, b.x as int), fx_mul_s(a.x as int, b.z as int)) as i64,
        z: fx_sub_s(fx_mul_s(a.x as int, b.y as int), fx_mul_s(a.y as int, b.x as int)) as i64,
    }
}

/// Length of a vector: the square root of its dot product with itself.
pub open spec fn v3_length_s(v: Vec3) -> int {
    fx_sqrt_s(v3_dot_s(v, v))
}

/// Normalization divides each component by the length; the zero vector (and
/// any vector whose squared length truncates to zero) maps to zero.
pub open spec fn v3_normalize_s(v: Vec3) -> Vec3 {
    let len: int = v3_length_s(v);
    Vec3 {
        x: fx_div_s(v.x as int, len) as i64,
        y: fx_div_s(v.y as int, len) as i64,
        z: fx_div_s(v.z as int, len) as i64,
    }
}

pub open spec fn v3_neg_s(v: Vec3) -> Vec3 {
    Vec3 {
        x: fx_neg_s(v.x as int) as i64,
        y: fx_neg_s(v.y as int) as i64,
        z: fx_neg_s(v.z as int) as i64,
    }
}

pub open spec fn v4_scale_s(v: Vec4, k: int) -> Vec4 {
    Vec4 {
        x: fx_mul_s(v.x as int, k) as i64,
        y: fx_mul_s(v.y as int, k) as i64,
        z: fx_mul_s(v.z as int, k) as i64,
        w: fx_mul_s(v.w as int, k) as i64,
    }
}

pub fn v3_add(a: Vec3, b: Vec3) -> (r: Vec3)
    ensures
        r == v3_add_s(a, b),
{
    Vec3 { x: fx_add(a.x, b.x), y: fx_add(a.y, b.y), z: fx_add(a.z, b.z) }
}

pub fn v3_sub(a: Vec3, b: Vec3) -> (r: Vec3)
    ensures
        r == v3_sub_s(a, b),
{
    Vec3 { x: fx_sub(a.x, b.x), y: fx_sub(a.y, b.y), z: fx_sub(a.z, b.z) }
}

pub fn v3_scale(v: Vec3, k: i64) -> (r: Vec3)
    ensures
        r == v3_scale_s(v, k as int),
{
    Vec3 { x: fx_mul(v.x, k), y: fx_mul(v.y, k), z: fx_mul(v.z, k) }
}

pub fn v3_dot(a: Vec3, b: Vec3) -> (r: i64)
    ensures
        r as int == v3_dot_s(a, b),
{
    fx_add(fx_add(fx_mul(a.x, b.x), fx_mul(a.y, b.y)), fx_mul(a.z, b.z))
}

pub fn v3_cross(a: Vec3, b: Vec3) -> (r: Vec3)
    ensures
        r == v3_cross_s(a, b),
{
    Vec3 {
        x: fx_sub(fx_mul(a.y, b.z), fx_mul(a.z, b.y)),
        y: fx_sub(fx_mul(a.z, b.x), fx_mul(a.x, b.z)),
        z: fx_sub(fx_mul(a.x, b.y), fx_mul(a.y, b.x)),
    }
}

pub fn v3_length(v: Vec3) -> (r: i64)
    ensures
        r as int == v3_length_s(v),
{
    fx_sqrt(v3_dot(v, v))
}

pub fn v3_normalize(v: Vec3) -> (r: Vec3)
    ensures
        r == v3_normalize_s(v),
{
    let len: i64 = v3_length(v);
    Vec3 { x: fx_div(v.x, len), y: fx_div(v.y, len), z: fx_div(v.z, len) }
}

pub fn v3_neg(v: Vec3) -> (r: Vec3)
    ensures
        r == v3_neg_s(v),
{
    Vec3 { x: fx_neg(v.x), y: fx_neg(v.y), z: fx_neg(v.z) }
}

pub fn v4_scale(v: Vec4, k: i64) -> (r: Vec4)
    ensures
        r == v4_scale_s(v, k as int),
{
    Vec4 { x: fx_mul(v.x, k), y: fx_mul(v.y, k), z: fx_mul(v.z, k), w: fx_mul(v.w, k) }
}

} // verus!
