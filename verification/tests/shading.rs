use raycast::scene::Scene;
use raycast::objects::{Shape, Object3D};
use raycast::general::{Color, Material, Light};
use raycast::vector::Vector3;
use raycast::ray::Ray;
use raycast::camera::PerspectiveCamera;
use raycast::fixed::SCALE;

fn fx(v: f64) -> i64 {
    (v * 1_000_000.0).round() as i64
}

fn red() -> Color {
    Color::new(SCALE, 0, 0)
}

fn sphere_object(center: Vector3, radius: i64, color: Color) -> Object3D {
    Object3D::new(
        None,
        vec![Shape::Sphere { origin: center, radius }],
        Some(Material { color, shininess: 4 }),
    )
    .unwrap()
}

// A single white light and a single red diffuse sphere straight ahead
// of the camera: the pixel at the image center blends ambient with the
// red diffuse term and is strictly brighter than the ambient-only
// corners.
#[test]
fn red_sphere_center_brighter_than_corners() {
    let ambient = Color::new(fx(0.05), fx(0.05), fx(0.05));
    let scene = Scene {
        ambient_color: ambient,
        fov: fx(1.570796),
        lights: vec![Light {
            position: Vector3::new(0, fx(2.0), fx(1.0)),
            color: Color::new(SCALE, SCALE, SCALE),
            intensity: fx(1.0),
        }],
        objects: vec![sphere_object(Vector3::new(0, 0, -SCALE), fx(0.5), red())],
    };
    let camera = PerspectiveCamera::with_view(fx(1.570796), 9, 9);

    let center_ray = camera.shoot_at(0, 0).unwrap();
    let corner_ray = camera.shoot_at(-SCALE, SCALE).unwrap();
    let center = scene.trace(&center_ray, 1);
    let corner = scene.trace(&corner_ray, 1);

    assert!(center.r > corner.r, "center {} corner {}", center.r, corner.r);
    // The corner misses everything: ambient only.
    assert_eq!(corner, ambient);
    // The center picks up a red diffuse term over the doubled ambient
    // base (the depth-one mirror bounce sees only ambient).
    assert!(center.r > center.g);
}

// A red sphere fully occluded from its light by an interposed opaque
// plane: that light contributes nothing, so the shaded color collapses
// to the ambient terms alone, strictly below the unoccluded render of
// the same geometry.
#[test]
fn occluding_plane_cancels_light() {
    let ambient = Color::new(fx(0.05), fx(0.05), fx(0.05));
    let light = Light {
        position: Vector3::new(0, fx(5.0), fx(-3.0)),
        color: Color::new(SCALE, SCALE, SCALE),
        intensity: fx(1.0),
    };
    let sphere = sphere_object(Vector3::new(0, 0, 0), SCALE, red());
    let plane = Object3D::new(
        None,
        vec![Shape::Plane {
            offset: fx(-2.0),
            normal: Vector3::new(0, SCALE, 0).normalized().unwrap(),
        }],
        Some(Material { color: Color::new(fx(0.5), fx(0.5), fx(0.5)), shininess: 0 }),
    )
    .unwrap();

    let lit_scene = Scene {
        ambient_color: ambient,
        fov: fx(1.570796),
        lights: vec![light],
        objects: vec![sphere_object(Vector3::new(0, 0, 0), SCALE, red())],
    };
    let occluded_scene = Scene {
        ambient_color: ambient,
        fov: fx(1.570796),
        lights: vec![light],
        objects: vec![sphere, plane],
    };

    let ray = Ray {
        origin: Vector3::new(0, 0, fx(-3.0)),
        direction: Vector3::new(0, 0, SCALE).normalized().unwrap(),
    };
    let lit = lit_scene.trace(&ray, 1);
    let occluded = occluded_scene.trace(&ray, 1);

    assert!(lit.r > occluded.r, "lit {} occluded {}", lit.r, occluded.r);
    // With the light cancelled only the ambient term and the depth-one
    // mirror bounce (ambient again) remain.
    assert_eq!(occluded, ambient.add(ambient));
}

#[test]
fn zero_depth_returns_ambient() {
    let ambient = Color::new(fx(0.25), fx(0.5), fx(0.75));
    let scene = Scene {
        ambient_color: ambient,
        fov: fx(1.0),
        lights: vec![],
        objects: vec![sphere_object(Vector3::new(0, 0, 0), SCALE, red())],
    };
    let ray = Ray {
        origin: Vector3::new(0, 0, fx(-3.0)),
        direction: Vector3::new(0, 0, SCALE).normalized().unwrap(),
    };
    assert_eq!(scene.trace(&ray, 0), ambient);
}

#[test]
fn gamma_bytes_exact() {
    assert_eq!(Color::new(SCALE, SCALE, SCALE).to_rgb8(), [255, 255, 255]);
    assert_eq!(Color::new(0, 0, 0).to_rgb8(), [0, 0, 0]);
    // A quarter has square root one half: half of 256.
    assert_eq!(Color::new(fx(0.25), 0, 0).to_rgb8(), [128, 0, 0]);
    // Out-of-range channels clamp before encoding.
    assert_eq!(Color::new(fx(9.0), fx(-1.0), 0).to_rgb8(), [255, 0, 0]);
}

#[test]
fn shade_demo_sphere_and_sky() {
    let hit_ray = Ray {
        origin: Vector3::new(0, 0, 0),
        direction: Vector3::new(0, 0, -SCALE).normalized().unwrap(),
    };
    assert_eq!(raycast::shade(hit_ray), Color::new(SCALE, 0, 0));

    let sky_ray = Ray {
        origin: Vector3::new(0, 0, 0),
        direction: Vector3::new(0, SCALE, 0).normalized().unwrap(),
    };
    let sky = raycast::shade(sky_ray);
    // Looking straight up blends fully into the sky color.
    assert!((sky.r - fx(0.5)).abs() < 5_000);
    assert!((sky.g - fx(0.7)).abs() < 5_000);
    assert!((sky.b - SCALE).abs() < 5_000);
}
