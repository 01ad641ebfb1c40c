use raycast::render::Raycaster;
use raycast::scene::Scene;
use raycast::objects::{Shape, Object3D};
use raycast::general::{Color, Material, Light};
use raycast::vector::Vector3;
use raycast::camera::PerspectiveCamera;
use raycast::fixed::SCALE;

fn fx(v: f64) -> i64 {
    (v * 1_000_000.0).round() as i64
}

fn small_caster(width: usize, height: usize) -> Raycaster {
    let scene = Scene {
        ambient_color: Color::new(fx(0.05), fx(0.05), fx(0.08)),
        fov: fx(1.570796),
        lights: vec![Light {
            position: Vector3::new(0, fx(2.0), fx(1.0)),
            color: Color::new(SCALE, SCALE, SCALE),
            intensity: fx(1.0),
        }],
        objects: vec![Object3D::new(
            None,
            vec![Shape::Sphere { origin: Vector3::new(0, 0, -SCALE), radius: fx(0.5) }],
            Some(Material { color: Color::new(SCALE, 0, 0), shininess: 4 }),
        )
        .unwrap()],
    };
    let camera = PerspectiveCamera::with_view(fx(1.570796), width, height);
    Raycaster { scene, camera }
}

// Rendering the same scene with one band and with four bands, under
// the same sampling seed, produces pixel-identical output: the band
// partition introduces no seams and assigns no row twice.
#[test]
fn band_count_does_not_change_pixels() {
    let one = small_caster(8, 6).render_rgb_flat(1, false, 42);
    let four = small_caster(8, 6).render_rgb_flat(4, false, 42);
    assert_eq!(one, four);
    let five = small_caster(8, 6).render_rgb_flat(5, false, 42);
    assert_eq!(one, five);
    let many = small_caster(8, 6).render_rgb_flat(11, false, 42);
    assert_eq!(one, many);
}

#[test]
fn bands_concatenate_to_whole_image() {
    let rc = small_caster(6, 5);
    let whole = rc.render_band(0, 5, 7, false);
    let mut parts = rc.render_band(0, 2, 7, false);
    parts.extend(rc.render_band(2, 4, 7, false));
    parts.extend(rc.render_band(4, 5, 7, false));
    assert_eq!(whole, parts);
}

#[test]
fn buffer_has_three_bytes_per_pixel() {
    let img = small_caster(8, 6).render_rgb_flat(3, false, 1);
    assert_eq!(img.len(), 8 * 6 * 3);
    let dbg = small_caster(4, 4).render_rgb_flat(2, true, 1);
    assert_eq!(dbg.len(), 4 * 4 * 3);
}

#[test]
fn random_seed_render_has_full_size() {
    let img = small_caster(4, 3).render_rgb_flat_random(2, false);
    assert_eq!(img.len(), 4 * 3 * 3);
}

#[test]
fn center_of_render_brighter_than_corner() {
    let img = small_caster(9, 9).render_rgb_flat(1, false, 9);
    let px = |x: usize, y: usize| {
        let i = (y * 9 + x) * 3;
        (img[i] as u32, img[i + 1] as u32, img[i + 2] as u32)
    };
    let center = px(4, 4);
    let corner = px(0, 0);
    assert!(center.0 > corner.0, "center {:?} corner {:?}", center, corner);
}
