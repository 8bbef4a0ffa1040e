use linalg::error::{Dims, MathError};
use linalg::matrix::Matrix;

fn matrix(vals: &[f64], rows: usize, cols: usize) -> Matrix {
    let mut data: Vec<u64> = Vec::new();
    for v in vals {
        data.push(v.to_bits());
    }
    Matrix::new(data, rows, cols).unwrap()
}

fn get_f64(m: &Matrix, r: usize, c: usize) -> f64 {
    f64::from_bits(m.get(r, c).unwrap())
}

fn assert_approx_eq(a: f64, b: f64, eps: f64) {
    assert!((a - b).abs() < eps, "expected {a} to be near {b} (eps {eps})");
}

#[test]
fn test_transpose() {
    let a = matrix(&[1.0, 2.0, 3.0, 4.0, 5.0, 6.0], 2, 3);

    let t = a.transpose();

    assert_eq!(t.dim().0, 3);
    assert_eq!(t.dim().1, 2);
    assert_approx_eq(get_f64(&t, 0, 0), 1.0, 1e-6);
    assert_approx_eq(get_f64(&t, 0, 1), 4.0, 1e-6);
    assert_approx_eq(get_f64(&t, 1, 0), 2.0, 1e-6);
    assert_approx_eq(get_f64(&t, 1, 1), 5.0, 1e-6);
    assert_approx_eq(get_f64(&t, 2, 0), 3.0, 1e-6);
    assert_approx_eq(get_f64(&t, 2, 1), 6.0, 1e-6);
}

#[test]
fn test_matmul() {
    let a = matrix(&[4.0, 3.0, 2.0, 1.0, 2.0, 3.0], 2, 3);
    let b = matrix(&[2.0, 3.0, 4.0], 3, 1);
    let c = a.matmul(&b).unwrap();

    assert_eq!(c.dim().0, 2);
    assert_eq!(c.dim().1, 1);
    assert_approx_eq(get_f64(&c, 0, 0), 25.0, 1e-6);
    assert_approx_eq(get_f64(&c, 1, 0), 20.0, 1e-6);
}

#[test]
fn test_new_shape_mismatch() {
    let mut data: Vec<u64> = Vec::new();
    for _ in 0..5 {
        data.push((1.0f64).to_bits());
    }
    assert_eq!(
        Matrix::new(data, 2, 3),
        Err(MathError::ShapeMismatch(5, 2, 3))
    );
}

#[test]
fn test_filled_and_dim() {
    let m = Matrix::filled(2, 3, (7.5f64).to_bits());
    assert_eq!(m.dim(), (2, 3));
    for r in 0..2 {
        for c in 0..3 {
            assert_eq!(m.get(r, c).unwrap(), (7.5f64).to_bits());
        }
    }
}

#[test]
fn test_get_out_of_bounds() {
    let m = matrix(&[1.0, 2.0, 3.0, 4.0, 5.0, 6.0], 2, 3);
    assert_eq!(
        m.get(2, 0),
        Err(MathError::IndexOutOfBounds(2, 0, 2, 3))
    );
    assert_eq!(
        m.get(0, 3),
        Err(MathError::IndexOutOfBounds(0, 3, 2, 3))
    );
}

#[test]
fn test_set_in_bounds() {
    let mut m = matrix(&[1.0, 2.0, 3.0, 4.0], 2, 2);
    assert_eq!(m.set(1, 0, (9.0f64).to_bits()), Ok(()));
    assert_eq!(get_f64(&m, 1, 0), 9.0);
    // every other cell is untouched
    assert_eq!(get_f64(&m, 0, 0), 1.0);
    assert_eq!(get_f64(&m, 0, 1), 2.0);
    assert_eq!(get_f64(&m, 1, 1), 4.0);
}

#[test]
fn test_set_out_of_bounds_leaves_matrix_unchanged() {
    let mut m = matrix(&[1.0, 2.0, 3.0, 4.0], 2, 2);
    assert_eq!(
        m.set(0, 2, (9.0f64).to_bits()),
        Err(MathError::IndexOutOfBounds(0, 2, 2, 2))
    );
    assert_eq!(m.dim(), (2, 2));
    assert_eq!(get_f64(&m, 0, 0), 1.0);
    assert_eq!(get_f64(&m, 0, 1), 2.0);
    assert_eq!(get_f64(&m, 1, 0), 3.0);
    assert_eq!(get_f64(&m, 1, 1), 4.0);
}

#[test]
fn test_transpose_involutive() {
    let vals = [1.5, -2.0, 0.25, 4.0, 5.5, -6.75];
    let m = matrix(&vals, 2, 3);
    let back = m.transpose().transpose();
    assert_eq!(back.dim(), (2, 3));
    for r in 0..2 {
        for c in 0..3 {
            assert_eq!(back.get(r, c).unwrap(), m.get(r, c).unwrap());
        }
    }
}

#[test]
fn test_matmul_dims() {
    let a = Matrix::filled(4, 2, (1.0f64).to_bits());
    let b = Matrix::filled(2, 5, (2.0f64).to_bits());
    let c = a.matmul(&b).unwrap();
    assert_eq!(c.dim(), (4, 5));
    for r in 0..4 {
        for c2 in 0..5 {
            assert_approx_eq(get_f64(&c, r, c2), 4.0, 1e-9);
        }
    }
}

#[test]
fn test_matmul_dimension_mismatch() {
    let a = matrix(&[1.0, 2.0, 3.0, 4.0, 5.0, 6.0], 2, 3);
    let b = matrix(&[1.0, 2.0], 2, 1);
    assert_eq!(
        a.matmul(&b),
        Err(MathError::DimensionMismatch(
            Dims::Matrix(2, 3),
            Dims::Matrix(2, 1)
        ))
    );
    // both operands are unchanged
    assert_eq!(a.dim(), (2, 3));
    assert_eq!(b.dim(), (2, 1));
    assert_approx_eq(get_f64(&a, 1, 2), 6.0, 1e-9);
    assert_approx_eq(get_f64(&b, 1, 0), 2.0, 1e-9);
}

#[test]
fn test_matmul_matches_native_arithmetic() {
    let a = matrix(&[0.1, 0.2, 0.3, 0.4], 2, 2);
    let b = matrix(&[0.5, 0.6, 0.7, 0.8], 2, 2);
    let c = a.matmul(&b).unwrap();
    let cells = [(0usize, 0usize), (0, 1), (1, 0), (1, 1)];
    let av = [[0.1f64, 0.2f64], [0.3f64, 0.4f64]];
    let bv = [[0.5f64, 0.6f64], [0.7f64, 0.8f64]];
    for (r, s) in cells {
        let mut expected: f64 = 0.0;
        for k in 0..2 {
            expected = expected + av[r][k] * bv[k][s];
        }
        assert_eq!(c.get(r, s).unwrap(), expected.to_bits());
    }
}
