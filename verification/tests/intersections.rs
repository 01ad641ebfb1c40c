use raycast::objects::{sphere_intersect, plane_intersect, triangle_intersect, torus_intersect};
use raycast::vector::Vector3;
use raycast::ray::Ray;
use raycast::general::Material;
use raycast::fixed::SCALE;

fn fx(v: f64) -> i64 {
    (v * 1_000_000.0).round() as i64
}

fn ray(ox: f64, oy: f64, oz: f64, dx: f64, dy: f64, dz: f64) -> Ray {
    Ray {
        origin: Vector3::new(fx(ox), fx(oy), fx(oz)),
        direction: Vector3::new(fx(dx), fx(dy), fx(dz)).normalized().unwrap(),
    }
}

// The sphere's candidates are exactly the quadratic roots: a ray from
// outside returns the smaller root; started past the near wall it
// returns the far root; started past both it misses.
#[test]
fn sphere_returns_smallest_root_past_tmin() {
    let mat = Material::default();
    let center = Vector3::new(0, 0, 0);
    let through = ray(-3.0, 0.0, 0.0, 1.0, 0.0, 0.0);

    let near = sphere_intersect(center, SCALE, &through, 1, mat).unwrap();
    assert_eq!(near.t, fx(2.0));
    assert_eq!(near.point.x, -SCALE);
    // The outward normal at the near wall faces the ray.
    assert_eq!(near.normal.into_vector().x, -SCALE);

    let far = sphere_intersect(center, SCALE, &through, fx(2.5), mat).unwrap();
    assert_eq!(far.t, fx(4.0));

    assert!(sphere_intersect(center, SCALE, &through, fx(4.5), mat).is_none());

    let missing = ray(-3.0, 3.0, 0.0, 1.0, 0.0, 0.0);
    assert!(sphere_intersect(center, SCALE, &missing, 1, mat).is_none());
}

#[test]
fn plane_hit_and_parallel_miss() {
    let mat = Material::default();
    // The floor: normal up, passing through the origin.
    let n = Vector3::new(0, SCALE, 0).normalized().unwrap();
    let falling = ray(0.0, 2.0, 0.0, 0.0, -1.0, 0.0);
    let hit = plane_intersect(0, n, &falling, 1, mat).unwrap();
    assert_eq!(hit.t, fx(2.0));
    assert_eq!(hit.point.y, 0);

    // A ray parallel to the plane misses, the coincident case included.
    let gliding = ray(0.0, 0.0, 0.0, 1.0, 0.0, 0.0);
    assert!(plane_intersect(0, n, &gliding, 1, mat).is_none());
}

#[test]
fn triangle_inside_and_outside() {
    let mat = Material::default();
    let v0 = Vector3::new(fx(-1.0), fx(-1.0), fx(-2.0));
    let v1 = Vector3::new(fx(1.0), fx(-1.0), fx(-2.0));
    let v2 = Vector3::new(0, fx(1.0), fx(-2.0));
    let n = Vector3::new(0, 0, SCALE).normalized().unwrap();

    let inside = ray(0.0, 0.0, 0.0, 0.0, 0.0, -1.0);
    let hit = triangle_intersect(v0, v1, v2, n, &inside, 1, mat).unwrap();
    assert_eq!(hit.t, fx(2.0));

    let outside = ray(2.0, 2.0, 0.0, 0.0, 0.0, -1.0);
    assert!(triangle_intersect(v0, v1, v2, n, &outside, 1, mat).is_none());
}

// The torus quartic is built in the torus's local space: moving the
// torus origin moves where the same scene is hit.
#[test]
fn torus_away_from_world_origin() {
    let mat = Material::default();
    let origin = Vector3::new(fx(5.0), 0, 0);

    // Through the shifted hole: still a miss.
    let through_hole = ray(5.0, 0.0, -5.0, 0.0, 0.0, 1.0);
    assert!(torus_intersect(origin, fx(2.0), fx(1.0), &through_hole, 1, mat).is_none());

    // Through the shifted tube: the same crossing as at the origin,
    // carried along by the torus's own position.
    let through_tube = ray(7.0, 0.0, -5.0, 0.0, 0.0, 1.0);
    let hit = torus_intersect(origin, fx(2.0), fx(1.0), &through_tube, 1, mat).unwrap();
    assert_eq!(hit.t, fx(4.0));

    // Where the torus sat at the world origin, the shifted rays miss.
    let world = Vector3::new(0, 0, 0);
    assert!(torus_intersect(world, fx(2.0), fx(1.0), &through_tube, 1, mat).is_none());
}

// A torus with hole radius 2 and tube radius 1 at the origin: a ray
// cast straight through the hole along the symmetry axis misses; one
// through the tube cross-section hits the near tube wall.
#[test]
fn torus_hole_and_tube() {
    let mat = Material::default();
    let origin = Vector3::new(0, 0, 0);

    let through_hole = ray(0.0, 0.0, -5.0, 0.0, 0.0, 1.0);
    assert!(torus_intersect(origin, fx(2.0), fx(1.0), &through_hole, 1, mat).is_none());

    let through_tube = ray(2.0, 0.0, -5.0, 0.0, 0.0, 1.0);
    let hit = torus_intersect(origin, fx(2.0), fx(1.0), &through_tube, 1, mat).unwrap();
    assert_eq!(hit.t, fx(4.0));
    // The normal points from the tube's center circle to the hit.
    assert!((hit.normal.into_vector().z + SCALE).abs() <= 2_000);
}
