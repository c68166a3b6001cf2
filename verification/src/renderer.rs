//! The renderer: one ray per pixel, analytic ray/sphere intersection,
//! nearest-hit selection and Lambertian shading under a fixed directional
//! light.

use vstd::prelude::*;
use crate::camera::Camera;
use crate::fx::{
    fx_div, fx_div_s, fx_mul, fx_mul_s, fx_neg, fx_neg_s, fx_sqrt, fx_sqrt_s, fx_sub, fx_sub_s,
    fx_trunc, fx_trunc_s, lemma_fx_mul_monotone, lemma_tdiv_monotone, FX_FOUR, FX_ONE, FX_TWO,
    SCALE,
};
use crate::ray::Ray;
use crate::scene::{Scene, Sphere};
use crate::vec::{
    v3_add, v3_add_s, v3_dot, v3_dot_s, v3_neg, v3_neg_s, v3_normalize, v3_normalize_s, v3_scale,
    v3_scale_s, v3_sub, v3_sub_s, v4_scale, v4_scale_s, Vec3, Vec4,
};

verus! {

/// The albedo multiplier that turns a unit channel into a full byte.
pub const FX_BYTE_MAX: i64 = 16711680;

/// One output pixel.
#[derive(Clone, Copy, PartialEq, Eq, Structural, Debug)]
pub struct Color {
    pub r: u8,
    pub g: u8,
    pub b: u8,
}

/// The rendered image: `width * height` pixels, row-major, row 0 at the
/// top.
pub struct PixelBuffer {
    pub width: usize,
    pub height: usize,
    pub pixels: Vec<Color>,
}

pub struct Renderer {}

impl Default for Renderer {
    fn default() -> (r: Renderer)
        ensures
            r == (Renderer {  }),
    {
        Renderer {  }
    }
}

/// Quadratic coefficient `a = dot(d, d)` of the ray/sphere intersection.
pub open spec fn sphere_qa_s(s: Sphere, ray: Ray) -> int {
    v3_dot_s(ray.direction, ray.direction)
}

/// Quadratic coefficient `b = 2 dot(o, d)`, with `o` the ray origin
/// relative to the sphere's center.
pub open spec fn sphere_qb_s(s: Sphere, ray: Ray) -> int {
    fx_mul_s(FX_TWO as int, v3_dot_s(v3_sub_s(ray.origin, s.position), ray.direction))
}

/// Quadratic coefficient `c = dot(o, o) - radius^2`.
pub open spec fn sphere_qc_s(s: Sphere, ray: Ray) -> int {
    let o: Vec3 = v3_sub_s(ray.origin, s.position);
    fx_sub_s(v3_dot_s(o, o), fx_mul_s(s.radius as int, s.radius as int))
}

/// Discriminant `b^2 - 4 a c`; the ray misses when it is negative.
pub open spec fn sphere_disc_s(s: Sphere, ray: Ray) -> int {
    fx_sub_s(
        fx_mul_s(sphere_qb_s(s, ray), sphere_qb_s(s, ray)),
        fx_mul_s(fx_mul_s(FX_FOUR as int, sphere_qa_s(s, ray)), sphere_qc_s(s, ray)),
    )
}

/// Near root `(-b - sqrt(disc)) / (2 a)` of the quadratic: the hit
/// distance along the ray.
pub open spec fn sphere_t_s(s: Sphere, ray: Ray) -> int {
    fx_div_s(
        fx_sub_s(fx_neg_s(sphere_qb_s(s, ray)), fx_sqrt_s(sphere_disc_s(s, ray))),
        fx_mul_s(FX_TWO as int, sphere_qa_s(s, ray)),
    )
}

/// A sphere is hit when the discriminant is nonnegative and the near root
/// is not behind the ray origin.
pub open spec fn sphere_hit_s(s: Sphere, ray: Ray) -> bool {
    sphere_disc_s(s, ray) >= 0 && sphere_t_s(s, ray) >= 0
}

/// Intersect one sphere: the hit distance, or `None` on a miss.
pub fn sphere_hit(s: &Sphere, ray: &Ray) -> (r: Option<i64>)
    ensures
        r is Some <==> sphere_hit_s(*s, *ray),
        r is Some ==> r->0 as int == sphere_t_s(*s, *ray),
{
    let o: Vec3 = v3_sub(ray.origin, s.position);
    let qa: i64 = v3_dot(ray.direction, ray.direction);
    let qb: i64 = fx_mul(FX_TWO, v3_dot(o, ray.direction));
    let qc: i64 = fx_sub(v3_dot(o, o), fx_mul(s.radius, s.radius));
    let disc: i64 = fx_sub(fx_mul(qb, qb), fx_mul(fx_mul(FX_FOUR, qa), qc));
    if disc < 0 {
        return None;
    }
    let t: i64 = fx_div(fx_sub(fx_neg(qb), fx_sqrt(disc)), fx_mul(FX_TWO, qa));
    if t < 0 {
        return None;
    }
    Some(t)
}

/// Lambert term at the hit point: the normal against the fixed directional
/// light, clamped at zero.
pub open spec fn light_term_s(s: Sphere, ray: Ray) -> int {
    let hit_position: Vec3 = v3_add_s(
        v3_sub_s(ray.origin, s.position),
        v3_scale_s(ray.direction, sphere_t_s(s, ray)),
    );
    let normal: Vec3 = v3_normalize_s(hit_position);
    let light_dir: Vec3 = v3_normalize_s(Vec3 { x: -65536i64, y: -65536i64, z: -65536i64 });
    let d: int = v3_dot_s(normal, v3_neg_s(light_dir));
    if d > 0 {
        d
    } else {
        0
    }
}

/// Shaded color of a hit sphere: its albedo scaled by the Lambert term.
pub open spec fn shade_s(s: Sphere, ray: Ray) -> Vec4 {
    v4_scale_s(s.material.albedo, light_term_s(s, ray))
}

/// A color channel as a byte: scale to 255, truncate toward zero, saturate
/// into 0..=255.
pub open spec fn byte_of_s(c: int) -> int {
    let v: int = fx_trunc_s(fx_mul_s(c, FX_BYTE_MAX as int));
    if v < 0 {
        0
    } else if v > 255 {
        255
    } else {
        v
    }
}

pub fn byte_of(c: i64) -> (b: u8)
    ensures
        b as int == byte_of_s(c as int),
{
    let v: i64 = fx_trunc(fx_mul(c, FX_BYTE_MAX));
    if v < 0 {
        0
    } else if v > 255 {
        255
    } else {
        v as u8
    }
}

/// The first three channels of a shaded color, as bytes.
pub open spec fn color_of_s(c: Vec4) -> Color {
    Color {
        r: byte_of_s(c.x as int) as u8,
        g: byte_of_s(c.y as int) as u8,
        b: byte_of_s(c.z as int) as u8,
    }
}

/// Sphere `k` is the one the tracer selects: it is hit, no hit is nearer,
/// and every earlier hit is strictly farther.
pub open spec fn selected_hit(spheres: Seq<Sphere>, ray: Ray, k: int) -> bool {
    &&& 0 <= k < spheres.len()
    &&& sphere_hit_s(spheres[k], ray)
    &&& forall|j: int|
        0 <= j < spheres.len() && #[trigger] sphere_hit_s(spheres[j], ray) ==> sphere_t_s(
            spheres[k],
            ray,
        ) <= sphere_t_s(spheres[j], ray)
    &&& forall|j: int|
        0 <= j < k && #[trigger] sphere_hit_s(spheres[j], ray) ==> sphere_t_s(spheres[k], ray)
            < sphere_t_s(spheres[j], ray)
}

/// Whether any sphere of the scene is hit by the ray.
pub open spec fn any_hit(spheres: Seq<Sphere>, ray: Ray) -> bool {
    exists|j: int| 0 <= j < spheres.len() && #[trigger] sphere_hit_s(spheres[j], ray)
}

/// The traced color of a ray: the shaded selected hit, or black on a miss.
pub open spec fn traced_color_s(spheres: Seq<Sphere>, ray: Ray) -> Color {
    if any_hit(spheres, ray) {
        let k = choose|k: int| selected_hit(spheres, ray, k);
        color_of_s(shade_s(spheres[k], ray))
    } else {
        Color { r: 0, g: 0, b: 0 }
    }
}

/// At most one sphere is the selected hit.
pub proof fn lemma_selected_unique(spheres: Seq<Sphere>, ray: Ray, k1: int, k2: int)
    requires
        selected_hit(spheres, ray, k1),
        selected_hit(spheres, ray, k2),
    ensures
        k1 == k2,
{
    if k1 < k2 {
        assert(sphere_t_s(spheres[k2], ray) < sphere_t_s(spheres[k1], ray));
        assert(sphere_t_s(spheres[k1], ray) <= sphere_t_s(spheres[k2], ray));
    }
    if k2 < k1 {
        assert(sphere_t_s(spheres[k1], ray) < sphere_t_s(spheres[k2], ray));
        assert(sphere_t_s(spheres[k2], ray) <= sphere_t_s(spheres[k1], ray));
    }
}

/// A dimension clamped to at least one pixel.
pub open spec fn max1(v: int) -> int {
    if v >= 1 {
        v
    } else {
        1
    }
}

/// Index of pixel (x, y) in a buffer emitted top row first, with y counted
/// upward from the bottom.
pub open spec fn pix_idx(height: int, width: int, x: int, y: int) -> int {
    (height - 1 - y) * width + x
}

/// What `render` writes at pixel (x, y): the traced color of the ray whose
/// direction the camera's table holds for that pixel, indexed with the
/// camera's unclamped viewport width; black where the table has no entry.
pub open spec fn rendered_pixel_s(spheres: Seq<Sphere>, cam: Camera, x: int, y: int) -> Color {
    let idx: int = x + y * (cam.viewport_width as int);
    if 0 <= idx < cam.ray_directions@.len() {
        traced_color_s(
            spheres,
            Ray { origin: cam.position, direction: cam.ray_directions@[idx] },
        )
    } else {
        Color { r: 0, g: 0, b: 0 }
    }
}

impl Renderer {
    /// Trace one ray through the scene: intersect every sphere in order,
    /// keep the nearest accepted hit — the first among equals — and shade
    /// it; a miss is black.
    pub fn trace_ray(&self, scene: &Scene, ray: &Ray) -> (color: Color)
        ensures
            color == traced_color_s(scene.spheres@, *ray),
            !any_hit(scene.spheres@, *ray) ==> color == (Color { r: 0, g: 0, b: 0 }),
            forall|k: int|
                selected_hit(scene.spheres@, *ray, k) ==> color == color_of_s(
                    shade_s(scene.spheres@[k], *ray),
                ),
    {
        let mut have: bool = false;
        let mut best: usize = 0;
        let mut best_t: i64 = 0;
        let mut i: usize = 0;
        while i < scene.spheres.len()
            invariant
                i <= scene.spheres.len(),
                !have ==> forall|j: int|
                    0 <= j < i ==> !#[trigger] sphere_hit_s(scene.spheres@[j], *ray),
                have ==> best < i,
                have ==> sphere_hit_s(scene.spheres@[best as int], *ray),
                have ==> best_t as int == sphere_t_s(scene.spheres@[best as int], *ray),
                have ==> (forall|j: int|
                    0 <= j < i && #[trigger] sphere_hit_s(scene.spheres@[j], *ray)
                        ==> best_t as int <= sphere_t_s(scene.spheres@[j], *ray)),
                have ==> (forall|j: int|
                    0 <= j < best && #[trigger] sphere_hit_s(scene.spheres@[j], *ray)
                        ==> (best_t as int) < sphere_t_s(scene.spheres@[j], *ray)),
            decreases scene.spheres.len() - i,
        {
            let s: Sphere = scene.spheres[i];
            if let Some(t) = sphere_hit(&s, ray) {
                if !have || t < best_t {
                    have = true;
                    best = i;
                    best_t = t;
                }
            }
            i = i + 1;
        }
        if have {
            proof {
                assert(selected_hit(scene.spheres@, *ray, best as int));
                assert(any_hit(scene.spheres@, *ray));
                let k = choose|k: int| selected_hit(scene.spheres@, *ray, k);
                lemma_selected_unique(scene.spheres@, *ray, k, best as int);
            }
            let s: Sphere = scene.spheres[best];
            let o: Vec3 = v3_sub(ray.origin, s.position);
            let hit_position: Vec3 = v3_add(o, v3_scale(ray.direction, best_t));
            let normal: Vec3 = v3_normalize(hit_position);
            let light_dir: Vec3 = v3_normalize(Vec3 { x: -FX_ONE, y: -FX_ONE, z: -FX_ONE });
            let d: i64 = v3_dot(normal, v3_neg(light_dir));
            let light: i64 = if d > 0 {
                d
            } else {
                0
            };
            let shaded: Vec4 = v4_scale(s.material.albedo, light);
            Color { r: byte_of(shaded.x), g: byte_of(shaded.y), b: byte_of(shaded.z) }
        } else {
            proof {
                assert(!any_hit(scene.spheres@, *ray));
            }
            Color { r: 0, g: 0, b: 0 }
        }
    }

    /// Render the whole frame: for every pixel of the (at least 1x1)
    /// output, trace the ray the camera precomputed for it.  Rows are
    /// emitted from the top of the image down, which is the reverse of the
    /// ray table's row order.
    pub fn render(&self, scene: &Scene, camera: &Camera) -> (img: PixelBuffer)
        ensures
            img.width as int == max1(camera.viewport_width as int),
            img.height as int == max1(camera.viewport_height as int),
            img.pixels@.len() == (img.width as int) * (img.height as int),
            forall|x: int, y: int|
                0 <= x < img.width && 0 <= y < img.height ==> img.pixels@[pix_idx(
                    img.height as int,
                    img.width as int,
                    x,
                    y,
                )] == #[trigger] rendered_pixel_s(scene.spheres@, *camera, x, y),
    {
        let width: usize = if camera.viewport_width >= 1 {
            camera.viewport_width
        } else {
            1
        };
        let height: usize = if camera.viewport_height >= 1 {
            camera.viewport_height
        } else {
            1
        };
        let mut pixels: Vec<Color> = Vec::new();
        let mut row: usize = 0;
        while row < height
            invariant
                row <= height,
                pixels@.len() == (row as int) * (width as int),
                forall|x: int, y: int|
                    0 <= x < width && height - row <= y < height ==> pixels@[pix_idx(
                        height as int,
                        width as int,
                        x,
                        y,
                    )] == #[trigger] rendered_pixel_s(scene.spheres@, *camera, x, y),
            decreases height - row,
        {
            let y: usize = height - 1 - row;
            let mut x: usize = 0;
            while x < width
                invariant
                    x <= width,
                    row < height,
                    y == height - 1 - row,
                    pixels@.len() == (row as int) * (width as int) + x,
                    forall|xx: int, yy: int|
                        0 <= xx < width && height - row <= yy < height ==> pixels@[pix_idx(
                            height as int,
                            width as int,
                            xx,
                            yy,
                        )] == #[trigger] rendered_pixel_s(scene.spheres@, *camera, xx, yy),
                    forall|xx: int|
                        0 <= xx < x ==> pixels@[pix_idx(height as int, width as int, xx, y as int)]
                            == #[trigger] rendered_pixel_s(scene.spheres@, *camera, xx, y as int),
                decreases width - x,
            {
                proof {
                    assert((y as u128) * (camera.viewport_width as u128)
                        <= 0xFFFF_FFFF_FFFF_FFFFu128 * 0xFFFF_FFFF_FFFF_FFFFu128)
                        by (nonlinear_arith)
                        requires
                            y as u128 <= 0xFFFF_FFFF_FFFF_FFFFu128,
                            camera.viewport_width as u128 <= 0xFFFF_FFFF_FFFF_FFFFu128,
                    ;
                }
                let idx: u128 = x as u128 + (y as u128) * (camera.viewport_width as u128);
                let color: Color = if idx < camera.ray_directions.len() as u128 {
                    let direction: Vec3 = camera.ray_directions[idx as usize];
                    self.trace_ray(scene, &Ray { origin: camera.position, direction })
                } else {
                    Color { r: 0, g: 0, b: 0 }
                };
                pixels.push(color);
                proof {
                    assert(color == rendered_pixel_s(scene.spheres@, *camera, x as int, y as int));
                    assert(pix_idx(height as int, width as int, x as int, y as int) == (row as int)
                        * (width as int) + x);
                    assert forall|xx: int, yy: int|
                        0 <= xx < width && height - row <= yy < height implies pixels@[pix_idx(
                        height as int,
                        width as int,
                        xx,
                        yy,
                    )] == #[trigger] rendered_pixel_s(scene.spheres@, *camera, xx, yy) by {
                        lemma_pix_idx_bound(height as int, width as int, xx, yy, row as int);
                    }
                }
                x = x + 1;
            }
            row = row + 1;
            proof {
                assert((row as int) * (width as int) == ((row - 1) as int) * (width as int) + (
                width as int)) by (nonlinear_arith);
                assert forall|xx: int, yy: int|
                    0 <= xx < width && height - row <= yy < height implies pixels@[pix_idx(
                    height as int,
                    width as int,
                    xx,
                    yy,
                )] == #[trigger] rendered_pixel_s(scene.spheres@, *camera, xx, yy) by {
                    if yy == height - row {
                        assert(pixels@[pix_idx(height as int, width as int, xx, yy)]
                            == rendered_pixel_s(scene.spheres@, *camera, xx, yy));
                    }
                }
            }
        }
        proof {
            assert((height as int) * (width as int) == (width as int) * (height as int))
                by (nonlinear_arith);
        }
        PixelBuffer { width, height, pixels }
    }
}

/// A pixel of a row emitted earlier sits below the next row's first index.
proof fn lemma_pix_idx_bound(height: int, width: int, x: int, y: int, row: int)
    by (nonlinear_arith)
    requires
        0 <= x < width,
        height - row <= y < height,
        0 <= row < height,
    ensures
        0 <= pix_idx(height, width, x, y),
        pix_idx(height, width, x, y) < row * width,
{
}

/// For a camera whose derived state is consistent with its parameters,
/// every pixel of the output is the traced color of that pixel's
/// unprojected ray — the background fallback for a stale table never
/// applies.
pub proof fn lemma_consistent_camera_pixel(spheres: Seq<Sphere>, cam: Camera, x: int, y: int)
    requires
        crate::camera::derived_ok(cam),
        0 <= x < cam.viewport_width,
        0 <= y < cam.viewport_height,
    ensures
        rendered_pixel_s(spheres, cam, x, y) == traced_color_s(
            spheres,
            Ray {
                origin: cam.position,
                direction: crate::camera::ray_dir_s(
                    cam.mat_inverse_projection,
                    cam.mat_inverse_view,
                    cam.viewport_width as int,
                    cam.viewport_height as int,
                    x,
                    y,
                ),
            },
        ),
{
    let w: int = cam.viewport_width as int;
    let h: int = cam.viewport_height as int;
    assert(0 <= x + y * w && x + y * w < h * w) by (nonlinear_arith)
        requires
            0 <= x < w,
            0 <= y < h,
    ;
    assert(h * w == w * h) by (nonlinear_arith);
}

/// Among several hits, the strictly nearest is selected; of two equally
/// near hits with no nearer or equal hit before them, the earlier one in
/// scene order is selected and the later one is not.
pub proof fn lemma_first_of_equal_wins(spheres: Seq<Sphere>, ray: Ray, i: int, j: int)
    requires
        0 <= i < j < spheres.len(),
        sphere_hit_s(spheres[i], ray),
        sphere_hit_s(spheres[j], ray),
        sphere_t_s(spheres[i], ray) == sphere_t_s(spheres[j], ray),
        forall|k: int|
            0 <= k < spheres.len() && #[trigger] sphere_hit_s(spheres[k], ray) ==> sphere_t_s(
                spheres[i],
                ray,
            ) <= sphere_t_s(spheres[k], ray),
        forall|k: int|
            0 <= k < i && #[trigger] sphere_hit_s(spheres[k], ray) ==> sphere_t_s(spheres[i], ray)
                < sphere_t_s(spheres[k], ray),
    ensures
        selected_hit(spheres, ray, i),
        !selected_hit(spheres, ray, j),
        traced_color_s(spheres, ray) == color_of_s(shade_s(spheres[i], ray)),
{
    assert(selected_hit(spheres, ray, i));
    assert(any_hit(spheres, ray));
    let k = choose|k: int| selected_hit(spheres, ray, k);
    lemma_selected_unique(spheres, ray, k, i);
}

/// A higher channel value never yields a lower byte.
pub proof fn lemma_byte_monotone(c1: int, c2: int)
    requires
        c1 <= c2,
    ensures
        byte_of_s(c1) <= byte_of_s(c2),
{
    lemma_fx_mul_monotone(c1, c2, FX_BYTE_MAX as int);
    lemma_tdiv_monotone(fx_mul_s(c1, FX_BYTE_MAX as int), fx_mul_s(c2, FX_BYTE_MAX as int), SCALE as int);
}

/// Shading monotonicity: for two spheres with the same geometry — hence
/// the same hit point and light term — raising albedo channels cannot
/// lower the corresponding output bytes.
pub proof fn lemma_shading_monotone(s1: Sphere, s2: Sphere, ray: Ray)
    requires
        s1.position == s2.position,
        s1.radius == s2.radius,
        s1.material.albedo.x <= s2.material.albedo.x,
        s1.material.albedo.y <= s2.material.albedo.y,
        s1.material.albedo.z <= s2.material.albedo.z,
    ensures
        byte_of_s(shade_s(s1, ray).x as int) <= byte_of_s(shade_s(s2, ray).x as int),
        byte_of_s(shade_s(s1, ray).y as int) <= byte_of_s(shade_s(s2, ray).y as int),
        byte_of_s(shade_s(s1, ray).z as int) <= byte_of_s(shade_s(s2, ray).z as int),
{
    assert(light_term_s(s1, ray) == light_term_s(s2, ray));
    let light: int = light_term_s(s1, ray);
    lemma_fx_mul_monotone(s1.material.albedo.x as int, s2.material.albedo.x as int, light);
    lemma_fx_mul_monotone(s1.material.albedo.y as int, s2.material.albedo.y as int, light);
    lemma_fx_mul_monotone(s1.material.albedo.z as int, s2.material.albedo.z as int, light);
    lemma_byte_monotone(shade_s(s1, ray).x as int, shade_s(s2, ray).x as int);
    lemma_byte_monotone(shade_s(s1, ray).y as int, shade_s(s2, ray).y as int);
    lemma_byte_monotone(shade_s(s1, ray).z as int, shade_s(s2, ray).z as int);
}

} // verus!
