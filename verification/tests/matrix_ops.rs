use raycast::matrix::SquareMatrix4;

fn fx(v: f64) -> i64 {
    (v * 1_000_000.0).round() as i64
}

fn mat(rows: [[f64; 4]; 4]) -> SquareMatrix4 {
    SquareMatrix4 {
        m00: fx(rows[0][0]), m01: fx(rows[0][1]), m02: fx(rows[0][2]), m03: fx(rows[0][3]),
        m10: fx(rows[1][0]), m11: fx(rows[1][1]), m12: fx(rows[1][2]), m13: fx(rows[1][3]),
        m20: fx(rows[2][0]), m21: fx(rows[2][1]), m22: fx(rows[2][2]), m23: fx(rows[2][3]),
        m30: fx(rows[3][0]), m31: fx(rows[3][1]), m32: fx(rows[3][2]), m33: fx(rows[3][3]),
    }
}

const TOL: i64 = 100;

fn a() -> SquareMatrix4 {
    mat([
        [1., 2., 3., 4.],
        [5., 6., 7., 8.],
        [9., 10., 11., 12.],
        [13., 14., 15., 16.],
    ])
}

fn b() -> SquareMatrix4 {
    mat([
        [0.4, 0., 2., 0.],
        [0., 0., 0.2, 1.],
        [0., 2., 1., 0.],
        [1., 0., 0., 0.],
    ])
}

fn c() -> SquareMatrix4 {
    mat([
        [1., 2., 3., 4.],
        [5., 6., 7., 8.],
        [9., 0., 1., 2.],
        [3., 4., 5., 6.],
    ])
}

#[test]
fn test_identity() {
    let id = SquareMatrix4::identity();
    assert!(id.mul(&a()).approx_eq(&a(), TOL));
    assert!(id.mul(&a()).mul(&id).approx_eq(&a(), TOL));
    assert!(id.mul(&id).approx_eq(&id, TOL));
}

#[test]
fn test_transpose() {
    let expected = mat([
        [1., 5., 9., 13.],
        [2., 6., 10., 14.],
        [3., 7., 11., 15.],
        [4., 8., 12., 16.],
    ]);
    assert!(a().transposed().approx_eq(&expected, TOL));

    let mut a_id = a().mul(&SquareMatrix4::identity());
    assert!(a_id.approx_eq(&a(), TOL));
    a_id.transpose();
    assert!(a_id.approx_eq(&expected, TOL));
}

#[test]
fn test_determinant() {
    assert_eq!(b().determinant(), fx(-4.0));
    assert_eq!(c().determinant(), 0);
}

#[test]
fn test_inverse_none() {
    assert!(c().inversed().is_none());
}

#[test]
fn test_inverse_some() {
    let expected = mat([
        [0., 0., 0., 1.],
        [-0.25, 0., 0.5, 0.1],
        [0.5, 0., 0., -0.2],
        [-0.1, 1., 0., 0.04],
    ]);
    assert!(b().inversed().unwrap().approx_eq(&expected, TOL));
}

#[test]
fn test_some_combinations() {
    let ab = mat([
        [4.4, 6., 5.4, 2.],
        [10., 14., 18.2, 6.],
        [15.6, 22., 31., 10.],
        [21.2, 30., 43.8, 14.],
    ]);
    assert!(a().mul(&b()).approx_eq(&ab, TOL));

    let chain = a()
        .mul(&b().inversed().unwrap())
        .mul(&c())
        .mul(&SquareMatrix4::identity().transposed())
        .mul(&SquareMatrix4::identity())
        .mul(&a().transposed())
        .mul(&b());
    let expected = mat([
        [53164. / 25., 72072. / 25., 291648. / 125., 22468. / 25.],
        [132078. / 25., 179044. / 25., 723896. / 125., 55786. / 25.],
        [210992. / 25., 286016. / 25., 1156144. / 125., 89104. / 25.],
        [289906. / 25., 392988. / 25., 1588392. / 125., 122422. / 25.],
    ]);
    assert!(chain.approx_eq(&expected, TOL));
}
