use fixgeo::matrix::Matrix;
use fixgeo::point::Point;
use fixgeo::scalar::Scalar;
use fixgeo::tuple::Tuple;
use fixgeo::vector::Vector;

/// The scalar closest to the real number `x`.
fn s(x: f64) -> Scalar {
    Scalar::from_units((x * 100_000_000.0).round() as i64)
}

/// A matrix over a grid of real numbers.
fn m(rows: [[f64; 4]; 4]) -> Matrix {
    Matrix::new(rows.map(|row| row.map(s)))
}

#[test]
fn two_matrices_approx_eq() {
    let matrix1 = m([
        [1.0, 2.0, 3.0, 4.0],
        [5.5, 6.5, 7.5, 8.5],
        [9.0, 10.0, 11.0, 12.0],
        [13.5, 14.5, 15.5, 16.5],
    ]);
    let matrix2 = m([
        [0.9999999, 2.0, 3.0, 4.0],
        [5.5, 6.5, 7.5, 8.5],
        [9.0, 10.0, 11.0, 12.0],
        [13.5, 14.5, 15.5, 16.5],
    ]);
    assert_eq!(matrix1, matrix2)
}

#[test]
fn two_matrices_approx_ne() {
    let matrix1 = m([
        [1.0, 2.0, 3.0, 4.0],
        [5.5, 6.5, 7.5, 8.5],
        [9.0, 10.0, 11.0, 12.0],
        [13.5, 14.5, 15.5, 16.5],
    ]);
    let matrix2 = m([
        [0.999, 2.0, 3.0, 4.0],
        [5.5, 6.5, 7.5, 8.5],
        [9.0, 10.0, 11.0, 12.0],
        [13.5, 14.5, 15.5, 16.5],
    ]);
    assert_ne!(matrix1, matrix2)
}

#[test]
fn mult_matrix_by_vector() {
    let matrix = m([
        [1.0, 2.0, 3.0, 4.0],
        [2.0, 4.0, 4.0, 2.0],
        [8.0, 6.0, 4.0, 1.0],
        [0.0, 0.0, 0.0, 1.0],
    ]);
    let vector = Vector::new(s(1.0), s(2.0), s(3.0));
    assert_eq!(matrix.mul_vector(vector), Vector::new(s(14.0), s(22.0), s(32.0)));
}

#[test]
fn mult_matrix_by_point() {
    let matrix = m([
        [1.0, 2.0, 3.0, 4.0],
        [2.0, 4.0, 4.0, 2.0],
        [8.0, 6.0, 4.0, 1.0],
        [0.0, 0.0, 0.0, 1.0],
    ]);
    let point = Point::new(s(1.0), s(2.0), s(3.0));
    assert_eq!(matrix.mul_point(point), Tuple::new(s(18.0), s(24.0), s(33.0), s(1.0)));
}

#[test]
fn mult_matrix_by_tuple() {
    let matrix = m([
        [1.0, 2.0, 3.0, 4.0],
        [2.0, 4.0, 4.0, 2.0],
        [8.0, 6.0, 4.0, 1.0],
        [0.0, 0.0, 0.0, 1.0],
    ]);
    let tuple = Tuple::new(s(1.0), s(2.0), s(3.0), s(1.0));
    assert_eq!(matrix.mul_tuple(tuple), Tuple::new(s(18.0), s(24.0), s(33.0), s(1.0)));
}

#[test]
fn access_matrix_by_index() {
    let mut matrix = m([
        [1.0, 2.0, 3.0, 4.0],
        [5.5, 6.5, 7.5, 8.5],
        [9.0, 10.0, 11.0, 12.0],
        [13.5, 14.5, 15.5, 16.5],
    ]);

    assert_eq!(matrix.get(3, 3), s(16.5));

    matrix.set(0, 1, s(0.0));

    assert_eq!(matrix.get(0, 1), s(0.0));
}
