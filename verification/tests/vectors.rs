use raycast::vector::{Vector3, UNIT_TOL};
use raycast::fixed::SCALE;
use raycast::general::RayError;

fn fx(v: f64) -> i64 {
    (v * 1_000_000.0).round() as i64
}

// Every vector the library normalizes has squared length within the
// unit band, and length within the band of one.
#[test]
fn normalized_vectors_have_unit_length() {
    let samples = [
        (3.0, 4.0, 0.0),
        (1.0, 1.0, 1.0),
        (-2.5, 0.1, 7.75),
        (0.0, 0.0, 0.004),
        (1000.0, -2000.0, 500.0),
    ];
    for (x, y, z) in samples {
        let u = Vector3::new(fx(x), fx(y), fx(z)).normalized().unwrap();
        let v = u.into_vector();
        assert!((v.length2() - SCALE).abs() <= UNIT_TOL);
        assert!((v.length() - SCALE).abs() <= UNIT_TOL);
    }
}

#[test]
fn normalizing_zero_vector_fails() {
    assert_eq!(
        Vector3::new(0, 0, 0).normalized().unwrap_err(),
        RayError::DegenerateVector
    );
    assert_eq!(
        Vector3::new(1, 0, 0).normalized().unwrap_err(),
        RayError::DegenerateVector
    );
}

// Mirror reflection is self-inverse: reflecting a reflected direction
// about the same normal returns the original within rounding tolerance.
#[test]
fn reflect_round_trip() {
    let v = Vector3::new(fx(0.6), fx(-0.8), 0).normalized().unwrap();
    let n = Vector3::new(0, SCALE, 0).normalized().unwrap();
    let once = v.reflect(n).unwrap();
    let twice = once.reflect(n).unwrap();
    let orig = v.into_vector();
    let back = twice.into_vector();
    let tol = 2_000;
    assert!((back.x - orig.x).abs() <= tol);
    assert!((back.y - orig.y).abs() <= tol);
    assert!((back.z - orig.z).abs() <= tol);
}

#[test]
fn reflect_head_on_reverses() {
    let v = Vector3::new(0, 0, -SCALE).normalized().unwrap();
    let n = Vector3::new(0, 0, SCALE).normalized().unwrap();
    let r = v.reflect(n).unwrap().into_vector();
    assert!((r.x).abs() <= 1_000);
    assert!((r.y).abs() <= 1_000);
    assert!((r.z - SCALE).abs() <= 1_000);
}

#[test]
fn dot_and_cross_values() {
    let a = Vector3::new(fx(1.0), fx(2.0), fx(3.0));
    let b = Vector3::new(fx(4.0), fx(-5.0), fx(6.0));
    assert_eq!(a.dot(b), fx(4.0 - 10.0 + 18.0));
    let c = a.cross(b);
    assert_eq!(c.x, fx(12.0 + 15.0));
    assert_eq!(c.y, fx(12.0 - 6.0));
    assert_eq!(c.z, fx(-5.0 - 8.0));
}
