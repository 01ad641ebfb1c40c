use raycast::solver::{solve_quartic, solve_quadratic, min_greater_than};

const S: i128 = 1_000_000;
const TOL: i128 = 10;

fn assert_roots(mut result: Vec<i128>, mut expected: Vec<i128>) {
    assert_eq!(result.len(), expected.len(), "Mismatch in amount of roots");
    result.sort();
    expected.sort();
    for (r, e) in result.iter().zip(expected.iter()) {
        assert!((r - e).abs() <= TOL, "root {} vs expected {}", r, e);
    }
}

#[test]
fn four_real_roots_2_test() {
    let ys = solve_quartic(2 * S, -7 * S, -8 * S, 12 * S);
    assert_roots(ys, vec![-3 * S, -2 * S, 1 * S, 2 * S]);
}

#[test]
fn four_real_roots_3_test() {
    let ys = solve_quartic(2 * S, -25 * S, -26 * S, 120 * S);
    assert_roots(ys, vec![2 * S, 4 * S, -3 * S, -5 * S]);
}

#[test]
fn quadratic_roots() {
    // x^2 - 3x + 2: roots 2 and 1, the plus-branch root first.
    let r = solve_quadratic(S, -3 * S, 2 * S).unwrap();
    assert!((r.0 - 2 * S).abs() <= TOL);
    assert!((r.1 - 1 * S).abs() <= TOL);
    // Negative discriminant: no real roots.
    assert!(solve_quadratic(S, 0, S).is_none());
}

#[test]
fn smallest_root_past_tmin() {
    // Candidates at or below `tmin` are dropped before the minimum is
    // taken: a root behind the bound does not hide a farther valid one.
    let cands: Vec<i128> = vec![6 * S, 4 * S, -2 * S];
    assert_eq!(min_greater_than(-3 * S, &cands), Some(-2 * S));
    assert_eq!(min_greater_than(0, &cands), Some(4 * S));
    assert_eq!(min_greater_than(4 * S, &cands), Some(6 * S));
    assert_eq!(min_greater_than(6 * S, &cands), None);
    assert_eq!(min_greater_than(0, &Vec::new()), None);
}

// A torus with hole radius 2 and tube radius 1 at the origin, pierced
// through the tube cross-section by a ray at x = 2 along the symmetry
// axis: exactly the two tube-wall crossings come back.
#[test]
fn torus_tube_cross_section_two_roots() {
    let ys = solve_quartic(-20 * S, 164 * S, -640 * S, 960 * S);
    assert_roots(ys, vec![4 * S, 6 * S]);
}

// The same torus with the ray cast straight through the hole along the
// symmetry axis: no real root survives.
#[test]
fn torus_hole_no_roots() {
    let ys = solve_quartic(-20 * S, 156 * S, -560 * S, 784 * S);
    assert_eq!(ys.len(), 0);
}

// Quartics on which the resolvent-cubic method discards every branch:
// the square-root or fourth-root step lands on a negative value, and
// the rule is to discard, never to error.  These quartics do have real
// roots; the method as specified cannot see them, so the solver reports
// none.
#[test]
fn resolvent_discards_negative_branches() {
    // The resolvent discriminant goes negative before any root is cast.
    assert_eq!(solve_quartic(6 * S, -123 * S, -126 * S, 1080 * S).len(), 0);
    // The fourth-root operand goes negative after the cube-root step.
    assert_eq!(solve_quartic(5 * S, 17 * S, -29 * S, 0).len(), 0);
    assert_eq!(solve_quartic(1 * S, 17 * S, 2 * S, -1 * S).len(), 0);
}
