use fixgeo::color::Color;
use fixgeo::matrix::Matrix;
use fixgeo::point::Point;
use fixgeo::scalar::{Scalar, EPSILON};
use fixgeo::sim::{tick, Environment, Projectile};
use fixgeo::tuple::Tuple;
use fixgeo::vector::Vector;

/// The scalar closest to the real number `x`.
fn s(x: f64) -> Scalar {
    Scalar::from_units((x * 100_000_000.0).round() as i64)
}

/// A matrix over a grid of real numbers.
fn m(rows: [[f64; 4]; 4]) -> Matrix {
    Matrix::new(rows.map(|row| row.map(s)))
}

#[test]
fn normalized_vector_has_unit_magnitude() {
    let vector = Vector::new(s(1.0), s(2.0), s(3.0));
    let magnitude = vector.normalize().magnitude();
    assert!((magnitude.units - s(1.0).units).abs() <= EPSILON);
}

#[test]
fn normalize_unit_diagonal() {
    let unit = Vector::new(s(1.0), s(1.0), s(0.0)).normalize();
    assert!((unit.x.units - 70_711_000).abs() <= 1_000);
    assert!((unit.y.units - 70_711_000).abs() <= 1_000);
    assert_eq!(unit.z, s(0.0));
}

#[test]
fn point_translation_round_trip() {
    let point = Point::new(s(3.5), s(-2.0), s(7.25));
    let vector = Vector::new(s(0.25), s(10.0), s(-4.75));
    assert_eq!(point.add_vector(vector).sub_vector(vector), point);
    assert_eq!(point.sub_vector(vector).add_vector(vector), point);
}

#[test]
fn cross_product_anti_commutes() {
    let a = Vector::new(s(1.5), s(-2.25), s(3.0));
    let b = Vector::new(s(0.5), s(4.0), s(-1.75));
    let forward = a.cross(b);
    let backward = b.cross(a);
    assert_eq!(forward.x.units, -backward.x.units);
    assert_eq!(forward.y.units, -backward.y.units);
    assert_eq!(forward.z.units, -backward.z.units);
}

#[test]
fn cross_product_is_orthogonal() {
    let a = Vector::new(s(1.5), s(-2.25), s(3.0));
    let b = Vector::new(s(0.5), s(4.0), s(-1.75));
    let cross = a.cross(b);
    assert!(cross.dot(a).units.abs() <= EPSILON);
    assert!(cross.dot(b).units.abs() <= EPSILON);
}

#[test]
fn dot_and_cross_of_small_integers() {
    let a = Vector::new(s(1.0), s(2.0), s(3.0));
    let b = Vector::new(s(2.0), s(3.0), s(4.0));
    assert_eq!(a.dot(b), s(20.0));
    let cross = a.cross(b);
    assert_eq!(cross.x, s(-1.0));
    assert_eq!(cross.y, s(2.0));
    assert_eq!(cross.z, s(-1.0));
}

#[test]
fn color_add_sub_round_trip() {
    let color1 = Color::new(s(0.9), s(0.2), s(0.45));
    let color2 = Color::new(s(0.7), s(0.1), s(0.25));
    assert_eq!(color1.add(color2).sub(color2), color1);
}

#[test]
fn color_scale_div_round_trip() {
    let color = Color::new(s(0.9), s(0.2), s(0.45));
    let factor = s(0.5);
    assert_eq!(color.scale(factor).div(factor), color);
}

#[test]
fn matrix_multiplication_is_associative() {
    let a = m([
        [0.5, -1.0, 0.25, 2.0],
        [1.0, 0.75, -0.5, 0.0],
        [-2.0, 0.5, 1.0, 1.5],
        [0.0, 0.0, 0.0, 1.0],
    ]);
    let b = m([
        [1.0, 0.0, 0.5, -1.0],
        [0.25, 2.0, 0.0, 0.5],
        [0.0, -0.75, 1.0, 0.0],
        [0.0, 0.0, 0.0, 1.0],
    ]);
    let c = m([
        [0.0, 1.0, 0.0, 0.25],
        [-0.5, 0.0, 2.0, 0.0],
        [1.0, 0.5, -1.0, 0.75],
        [0.0, 0.0, 0.0, 1.0],
    ]);
    assert_eq!(a.mul(b).mul(c), a.mul(b.mul(c)));
}

#[test]
fn matrix_times_identity_is_unchanged() {
    let a = m([
        [1.0, 2.0, 3.0, 4.0],
        [5.5, 6.5, 7.5, 8.5],
        [9.0, 10.0, 11.0, 12.0],
        [13.5, 14.5, 15.5, 16.5],
    ]);
    assert_eq!(a.mul(Matrix::identity()), a);
}

#[test]
fn translation_ignores_vectors_but_moves_points() {
    let translation = m([
        [1.0, 0.0, 0.0, 5.0],
        [0.0, 1.0, 0.0, -3.0],
        [0.0, 0.0, 1.0, 2.0],
        [0.0, 0.0, 0.0, 1.0],
    ]);
    let vector = Vector::new(s(-3.0), s(4.0), s(5.0));
    assert_eq!(translation.mul_vector(vector), vector);
    let point = Point::new(s(-3.0), s(4.0), s(5.0));
    let moved = translation.mul_point(point);
    assert_ne!(moved, Tuple::from(point));
    assert_eq!(moved, Tuple::new(s(2.0), s(1.0), s(7.0), s(1.0)));
}

#[test]
fn projectile_tick_advances_position_and_velocity() {
    let environment = Environment::new(
        Vector::new(s(0.0), s(-0.1), s(0.0)),
        Vector::new(s(-0.01), s(0.0), s(0.0)),
    );
    let projectile = Projectile::new(
        Point::new(s(0.0), s(1.0), s(0.0)),
        Vector::new(s(1.0), s(1.8), s(0.0)),
    );
    let next = tick(&environment, projectile);
    assert_eq!(next.position, Point::new(s(1.0), s(2.8), s(0.0)));
    assert_eq!(next.velocity, Vector::new(s(0.99), s(1.7), s(0.0)));
}
