//! The scene: an ordered collection of spheres with simple materials.

use vstd::prelude::*;
use crate::fx::FX_ONE;
use crate::vec::{Vec3, Vec4};

verus! {

/// A material; shading uses the albedo's first three components, the
/// fourth is carried but ignored.
#[derive(Clone, Copy, PartialEq, Eq, Structural, Debug)]
pub struct Material {
    pub albedo: Vec4,
}

impl Default for Material {
    /// White albedo with zero alpha.
    fn default() -> (r: Material)
        ensures
            r.albedo == (Vec4 { x: FX_ONE, y: FX_ONE, z: FX_ONE, w: 0 }),
    {
        Material { albedo: Vec4 { x: FX_ONE, y: FX_ONE, z: FX_ONE, w: 0 } }
    }
}

#[derive(Clone, Copy, PartialEq, Eq, Structural, Debug)]
pub struct Sphere {
    pub position: Vec3,
    pub radius: i64,
    pub material: Material,
}

impl Default for Sphere {
    /// Unit sphere at the origin with the default material.
    fn default() -> (r: Sphere)
        ensures
            r.position == (Vec3 { x: 0, y: 0, z: 0 }),
            r.radius == FX_ONE,
            r.material.albedo == (Vec4 { x: FX_ONE, y: FX_ONE, z: FX_ONE, w: 0 }),
    {
        Sphere {
            position: Vec3 { x: 0, y: 0, z: 0 },
            radius: FX_ONE,
            material: Material::default(),
        }
    }
}

/// Spheres in insertion order; the renderer visits them in this order, and
/// the earliest sphere wins ties for the nearest hit.
pub struct Scene {
    pub spheres: Vec<Sphere>,
}

impl Default for Scene {
    /// An empty scene.
    fn default() -> (r: Scene)
        ensures
            r.spheres@ =~= Seq::<Sphere>::empty(),
    {
        Scene { spheres: Vec::new() }
    }
}

} // verus!
