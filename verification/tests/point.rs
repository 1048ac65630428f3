use fixgeo::point::{IntoPointError, Point};
use fixgeo::scalar::Scalar;
use fixgeo::tuple::Tuple;
use fixgeo::vector::Vector;

/// The scalar closest to the real number `x`.
fn s(x: f64) -> Scalar {
    Scalar::from_units((x * 100_000_000.0).round() as i64)
}

#[test]
fn point_has_w_eq_1() {
    let point = Point::new(s(0.0), s(2.0), s(3.0));
    assert_eq!(point.x, s(0.0));
    assert_eq!(point.y, s(2.0));
    assert_eq!(point.z, s(3.0));
    assert_eq!(point.w, s(1.0));
}

#[test]
fn try_point_from_tuple() {
    let ok_point = Point::try_from(Tuple::new(s(0.0), s(-1.0), s(2.0), s(1.0)));
    let err_point = Point::try_from(Tuple::new(s(0.0), s(-1.0), s(2.0), s(0.0)));
    assert!(ok_point.is_ok());
    if let Ok(point) = ok_point {
        assert_eq!(point, Point::new(s(0.0), s(-1.0), s(2.0)));
    }
    assert!(err_point.is_err());
    assert!(matches!(err_point, Err(IntoPointError::BadW)));
}

#[test]
fn two_points_approx_eq() {
    let point1 = Point::new(s(0.0 - 0.5 + 0.3), s(2.2), s(3.0 / 1.5));
    let point2 = Point::new(s(-0.2), s(1.1 * 2.0), s(2.0));
    assert_eq!(point1, point2);
}

#[test]
fn two_points_approx_ne() {
    let point1 = Point::new(s(0.000001), s(2.0), s(3.0));
    let point2 = Point::new(s(0.0), s(2.0), s(3.0));
    assert_ne!(point1, point2);
}

#[test]
fn add_vector_to_point() {
    let point = Point::new(s(0.0), s(2.0), s(3.0));
    let vector = Vector::new(s(-4.0), s(2.0), s(-3.0));
    let new_point = point.add_vector(vector);
    assert_eq!(new_point, Point::new(s(-4.0), s(4.0), s(0.0)));
}

#[test]
fn add_two_points() {
    let point1 = Point::new(s(0.0), s(2.0), s(3.0));
    let point2 = Point::new(s(-4.0), s(2.0), s(-3.0));
    let new_tuple = point1.add_point(point2);
    assert_eq!(new_tuple, Tuple::new(s(-4.0), s(4.0), s(0.0), s(2.0)));
}

#[test]
fn add_tuple_to_point() {
    let point = Point::new(s(0.0), s(2.0), s(3.0));
    let tuple = Tuple::new(s(-4.0), s(2.0), s(-3.0), s(5.0));
    let new_tuple = point.add_tuple(tuple);
    assert_eq!(new_tuple, Tuple::new(s(-4.0), s(4.0), s(0.0), s(6.0)));
}

#[test]
fn sub_vector_from_point() {
    let point = Point::new(s(0.0), s(2.0), s(3.0));
    let vector = Vector::new(s(-4.0), s(2.0), s(-3.0));
    let new_point = point.sub_vector(vector);
    assert_eq!(new_point, Point::new(s(4.0), s(0.0), s(6.0)));
}

#[test]
fn sub_two_points() {
    let point1 = Point::new(s(0.0), s(2.0), s(3.0));
    let point2 = Point::new(s(-4.0), s(2.0), s(-3.0));
    let new_vector = point1.sub_point(point2);
    assert_eq!(new_vector, Vector::new(s(4.0), s(0.0), s(6.0)));
}

#[test]
fn sub_tuple_from_point() {
    let point = Point::new(s(0.0), s(2.0), s(3.0));
    let tuple = Tuple::new(s(-4.0), s(2.0), s(-3.0), s(4.0));
    let new_tuple = point.sub_tuple(tuple);
    assert_eq!(new_tuple, Tuple::new(s(4.0), s(0.0), s(6.0), s(-3.0)));
}

#[test]
fn neg_point() {
    let point = Point::new(s(-4.0), s(2.0), s(0.0));
    let new_tuple = point.neg();
    assert_eq!(new_tuple, Tuple::new(s(4.0), s(-2.0), s(0.0), s(-1.0)));
}
