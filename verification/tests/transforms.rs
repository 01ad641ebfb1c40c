use raycast::transform::parse_transform;
use raycast::matrix::SquareMatrix4;
use raycast::objects::{Shape, Object3D, sphere_intersect};
use raycast::vector::Vector3;
use raycast::ray::Ray;
use raycast::general::{Material, RayError};
use raycast::fixed::SCALE;

fn fx(v: f64) -> i64 {
    (v * 1_000_000.0).round() as i64
}

#[test]
fn parse_translate_scale() {
    let m = parse_transform("Translate 1 0 0; Scale 1").unwrap();
    // Translation by one unit of x composed with the unit scale.
    assert_eq!(m.m03, SCALE);
    assert_eq!(m.m00, SCALE);
    assert_eq!(m.m13, 0);
    assert_eq!(m.m23, 0);
    assert_eq!(m.m33, SCALE);
}

#[test]
fn parse_numbers_and_whitespace() {
    let m = parse_transform("  Translate -1.5 0.25 3  ").unwrap();
    assert_eq!(m.m03, fx(-1.5));
    assert_eq!(m.m13, fx(0.25));
    assert_eq!(m.m23, fx(3.0));
}

#[test]
fn parse_rotation_quarter_turn() {
    let m = parse_transform("RotZ 90").unwrap();
    // cos 90 near zero, sin 90 near one.
    assert!(m.m00.abs() < 2_000);
    assert!((m.m10 - SCALE).abs() < 2_000);
    assert!((m.m01 + SCALE).abs() < 2_000);
}

#[test]
fn parse_failures() {
    assert_eq!(parse_transform("Wobble 3").unwrap_err(), RayError::BadTransform);
    assert_eq!(parse_transform("Translate 1 0").unwrap_err(), RayError::BadTransform);
    assert_eq!(parse_transform("Scale 1 2").unwrap_err(), RayError::BadTransform);
    assert_eq!(parse_transform("RotX abc").unwrap_err(), RayError::BadTransform);
    assert_eq!(parse_transform("Translate 1 0 0;;").unwrap_err(), RayError::BadTransform);
}

#[test]
fn parse_empty_is_identity() {
    let m = parse_transform("").unwrap();
    assert_eq!(m, SquareMatrix4::identity());
}

#[test]
fn non_invertible_scale_rejected() {
    let m = parse_transform("Scale 0").unwrap();
    let shapes = vec![Shape::Sphere { origin: Vector3::new(0, 0, 0), radius: SCALE }];
    assert_eq!(
        Object3D::new(Some(m), shapes, None).unwrap_err(),
        RayError::NonInvertibleTransform
    );
}

// Translating an object by one unit of x shifts where a head-on ray
// meets it: the ray parameter shrinks by that unit, and the reported
// world-space hit point moves by exactly (1, 0, 0).
#[test]
fn translated_sphere_hit_shifts() {
    let material = Material::default();
    let ray = Ray {
        origin: Vector3::new(fx(5.0), 0, 0),
        direction: Vector3::new(-SCALE, 0, 0).normalized().unwrap(),
    };
    let plain = sphere_intersect(Vector3::new(0, 0, 0), SCALE, &ray, 1, material).unwrap();
    assert_eq!(plain.t, fx(4.0));
    assert_eq!(plain.point.x, fx(1.0));

    let m = parse_transform("Translate 1 0 0; Scale 1").unwrap();
    let shapes = vec![Shape::Sphere { origin: Vector3::new(0, 0, 0), radius: SCALE }];
    let obj = Object3D::new(Some(m), shapes, None).unwrap();
    let hit = obj.intersect(&ray, 1).unwrap();
    assert_eq!(hit.t, fx(3.0));
    assert_eq!(hit.point.x, plain.point.x + fx(1.0));
    assert_eq!(hit.point.y, 0);
    assert_eq!(hit.point.z, 0);
    // The incoming direction is the world ray's own.
    assert_eq!(hit.incoming, ray.direction);
}
