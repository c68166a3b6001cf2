use raytracer::camera::{Camera, NavigationInput};
use raytracer::fx::{fx_div, fx_mul, fx_sqrt, FX_ONE};
use raytracer::ray::Ray;
use raytracer::renderer::{byte_of, sphere_hit, Color, Renderer};
use raytracer::scene::{Material, Scene, Sphere};
use raytracer::vec::{Vec3, Vec4};

fn still_input() -> NavigationInput {
    NavigationInput {
        looking: true,
        cursor_dx: 0,
        cursor_dy: 0,
        key_forward: false,
        key_back: false,
        key_left: false,
        key_right: false,
        key_down: false,
        key_up: false,
    }
}

fn sphere(x: i64, y: i64, z: i64, radius: i64, albedo: Vec4) -> Sphere {
    Sphere {
        position: Vec3 { x, y, z },
        radius,
        material: Material { albedo },
    }
}

#[test]
fn fixed_point_arithmetic_is_exact() {
    assert_eq!(fx_mul(98304, 131072), 196608);
    assert_eq!(fx_mul(-65536, 65536), -65536);
    assert_eq!(fx_div(5 * FX_ONE, 2 * FX_ONE), 163840);
    assert_eq!(fx_div(FX_ONE, 0), 0);
    assert_eq!(fx_sqrt(FX_ONE), FX_ONE);
    assert_eq!(fx_sqrt(4 * FX_ONE), 2 * FX_ONE);
    assert_eq!(fx_sqrt(-5), 0);
}

#[test]
fn byte_conversion_truncates_and_saturates() {
    assert_eq!(byte_of(37837), 147);
    assert_eq!(byte_of(32768), 127);
    assert_eq!(byte_of(FX_ONE), 255);
    assert_eq!(byte_of(70000), 255);
    assert_eq!(byte_of(-100), 0);
}

#[test]
fn center_pixel_ray_points_along_forward() {
    let mut camera = Camera::default();
    camera.on_resize(64, 64);
    let dir = camera.ray_directions[32 + 32 * 64];
    let tolerance = 7i64; // one part in 1e4 of a unit direction
    assert!(dir.x.abs() <= tolerance);
    assert!(dir.y.abs() <= tolerance);
    assert!((dir.z - camera.forward_direction.z).abs() <= tolerance);
}

#[test]
fn resize_is_idempotent() {
    let mut camera = Camera::default();
    camera.on_resize(32, 24);
    assert_eq!(camera.ray_directions.len(), 32 * 24);
    let before = camera.ray_directions.clone();
    camera.on_resize(32, 24);
    assert_eq!(camera.ray_directions, before);
    assert_eq!(camera.viewport_width, 32);
    assert_eq!(camera.viewport_height, 24);
}

#[test]
fn update_without_look_control_does_nothing() {
    let mut camera = Camera::default();
    let mut input = still_input();
    input.looking = false;
    input.key_forward = true;
    input.cursor_dx = 50;
    let moved = camera.on_update(FX_ONE, input);
    assert!(!moved);
    assert_eq!(camera.position, Vec3 { x: 0, y: 0, z: 6 * FX_ONE });
    assert_eq!(camera.ray_directions.len(), 0);
}

#[test]
fn forward_key_moves_at_speed() {
    let mut camera = Camera::default();
    let mut input = still_input();
    input.key_forward = true;
    let moved = camera.on_update(FX_ONE, input);
    assert!(moved);
    // one second forward at 5 units per second from z = 6 along (0,0,-1)
    assert_eq!(camera.position, Vec3 { x: 0, y: 0, z: FX_ONE });
    assert_eq!(camera.ray_directions.len(), 100 * 100);
}

#[test]
fn sphere_intersection_distance() {
    // sphere of radius 0.5 at the origin, ray from (0,0,3) along (0,0,-1)
    let s = sphere(0, 0, 0, FX_ONE / 2, Vec4 { x: FX_ONE, y: FX_ONE, z: FX_ONE, w: 0 });
    let ray = Ray {
        origin: Vec3 { x: 0, y: 0, z: 3 * FX_ONE },
        direction: Vec3 { x: 0, y: 0, z: -FX_ONE },
    };
    // t = 2.5
    assert_eq!(sphere_hit(&s, &ray), Some(163840));
}

#[test]
fn sphere_behind_ray_is_missed() {
    let s = sphere(0, 0, 0, FX_ONE / 2, Vec4 { x: FX_ONE, y: FX_ONE, z: FX_ONE, w: 0 });
    let ray = Ray {
        origin: Vec3 { x: 0, y: 0, z: 3 * FX_ONE },
        direction: Vec3 { x: 0, y: 0, z: FX_ONE },
    };
    assert_eq!(sphere_hit(&s, &ray), None);
}

#[test]
fn missing_every_sphere_gives_background() {
    let renderer = Renderer::default();
    let scene = Scene {
        spheres: vec![sphere(0, 0, 0, FX_ONE / 2, Vec4 { x: FX_ONE, y: 0, z: 0, w: 0 })],
    };
    let ray = Ray {
        origin: Vec3 { x: 0, y: 0, z: 3 * FX_ONE },
        direction: Vec3 { x: 0, y: FX_ONE, z: 0 },
    };
    assert_eq!(renderer.trace_ray(&scene, &ray), Color { r: 0, g: 0, b: 0 });
}

#[test]
fn empty_scene_gives_background() {
    let renderer = Renderer::default();
    let scene = Scene::default();
    let ray = Ray {
        origin: Vec3 { x: 0, y: 0, z: 3 * FX_ONE },
        direction: Vec3 { x: 0, y: 0, z: -FX_ONE },
    };
    assert_eq!(renderer.trace_ray(&scene, &ray), Color { r: 0, g: 0, b: 0 });
}

#[test]
fn nearer_sphere_wins() {
    let renderer = Renderer::default();
    // the red sphere is 2.5 units away, the green one 4.5
    let scene = Scene {
        spheres: vec![
            sphere(0, 0, -2 * FX_ONE, FX_ONE / 2, Vec4 { x: 0, y: FX_ONE, z: 0, w: 0 }),
            sphere(0, 0, 0, FX_ONE / 2, Vec4 { x: FX_ONE, y: 0, z: 0, w: 0 }),
        ],
    };
    let ray = Ray {
        origin: Vec3 { x: 0, y: 0, z: 3 * FX_ONE },
        direction: Vec3 { x: 0, y: 0, z: -FX_ONE },
    };
    assert_eq!(renderer.trace_ray(&scene, &ray), Color { r: 147, g: 0, b: 0 });
}

#[test]
fn first_sphere_wins_ties() {
    let renderer = Renderer::default();
    // identical geometry, so identical hit distance: insertion order decides
    let scene = Scene {
        spheres: vec![
            sphere(0, 0, 0, FX_ONE / 2, Vec4 { x: FX_ONE, y: 0, z: 0, w: 0 }),
            sphere(0, 0, 0, FX_ONE / 2, Vec4 { x: 0, y: FX_ONE, z: 0, w: 0 }),
        ],
    };
    let ray = Ray {
        origin: Vec3 { x: 0, y: 0, z: 3 * FX_ONE },
        direction: Vec3 { x: 0, y: 0, z: -FX_ONE },
    };
    assert_eq!(renderer.trace_ray(&scene, &ray), Color { r: 147, g: 0, b: 0 });
}

#[test]
fn render_dimensions_match_viewport() {
    let renderer = Renderer::default();
    let mut camera = Camera::default();
    camera.on_resize(8, 6);
    let scene = Scene::default();
    let img = renderer.render(&scene, &camera);
    assert_eq!(img.width, 8);
    assert_eq!(img.height, 6);
    assert_eq!(img.pixels.len(), 48);
}

#[test]
fn degenerate_viewport_renders_one_pixel() {
    let renderer = Renderer::default();
    let mut camera = Camera::default();
    camera.viewport_width = 0;
    camera.viewport_height = 0;
    let scene = Scene::default();
    let img = renderer.render(&scene, &camera);
    assert_eq!(img.width, 1);
    assert_eq!(img.height, 1);
    assert_eq!(img.pixels.len(), 1);
    assert_eq!(img.pixels[0], Color { r: 0, g: 0, b: 0 });
}

#[test]
fn stale_camera_renders_background() {
    // the default camera has not computed its ray table yet
    let renderer = Renderer::default();
    let camera = Camera::default();
    let scene = Scene::default();
    let img = renderer.render(&scene, &camera);
    assert_eq!(img.width, 100);
    assert_eq!(img.height, 100);
    assert_eq!(img.pixels.len(), 100 * 100);
    assert!(img.pixels.iter().all(|p| *p == Color { r: 0, g: 0, b: 0 }));
}

#[test]
fn rendered_sphere_appears_in_image_center() {
    let renderer = Renderer::default();
    let mut camera = Camera::default();
    camera.on_resize(9, 9);
    let scene = Scene {
        spheres: vec![sphere(0, 0, 0, 2 * FX_ONE, Vec4 { x: FX_ONE, y: FX_ONE, z: FX_ONE, w: 0 })],
    };
    let img = renderer.render(&scene, &camera);
    let center = img.pixels[4 * 9 + 4];
    assert!(center != Color { r: 0, g: 0, b: 0 });
    // the corner rays miss the sphere
    assert_eq!(img.pixels[0], Color { r: 0, g: 0, b: 0 });
}

#[test]
fn higher_albedo_never_darkens() {
    let renderer = Renderer::default();
    let ray = Ray {
        origin: Vec3 { x: 0, y: 0, z: 3 * FX_ONE },
        direction: Vec3 { x: 0, y: 0, z: -FX_ONE },
    };
    let dim = Scene {
        spheres: vec![sphere(0, 0, 0, FX_ONE / 2, Vec4 {
            x: FX_ONE / 2,
            y: FX_ONE / 2,
            z: FX_ONE / 2,
            w: 0,
        })],
    };
    let bright = Scene {
        spheres: vec![sphere(0, 0, 0, FX_ONE / 2, Vec4 { x: FX_ONE, y: FX_ONE, z: FX_ONE, w: 0 })],
    };
    let low = renderer.trace_ray(&dim, &ray);
    let high = renderer.trace_ray(&bright, &ray);
    assert_eq!(low, Color { r: 73, g: 73, b: 73 });
    assert_eq!(high, Color { r: 147, g: 147, b: 147 });
    assert!(low.r <= high.r && low.g <= high.g && low.b <= high.b);
}
