use fixgeo::point::Point;
use fixgeo::scalar::Scalar;
use fixgeo::tuple::Tuple;
use fixgeo::vector::{IntoVectorError, Vector};

/// The scalar closest to the real number `x`.
fn s(x: f64) -> Scalar {
    Scalar::from_units((x * 100_000_000.0).round() as i64)
}

#[test]
fn vector_has_w_eq_0() {
    let vector = Vector::new(s(0.0), s(2.0), s(3.0));
    assert_eq!(vector.x, s(0.0));
    assert_eq!(vector.y, s(2.0));
    assert_eq!(vector.z, s(3.0));
    assert_eq!(vector.w, s(0.0));
}

#[test]
fn try_vector_from_tuple() {
    let ok_vector = Vector::try_from(Tuple::new(s(0.0), s(-1.0), s(2.0), s(0.0)));
    let err_vector = Vector::try_from(Tuple::new(s(0.0), s(-1.0), s(2.0), s(1.0)));
    assert!(ok_vector.is_ok());
    if let Ok(vector) = ok_vector {
        assert_eq!(vector, Vector::new(s(0.0), s(-1.0), s(2.0)));
    }
    assert!(err_vector.is_err());
    assert!(matches!(err_vector, Err(IntoVectorError::BadW)));
}

#[test]
fn two_vectors_approx_eq() {
    let vector1 = Vector::new(s(0.0 - 0.5 + 0.3), s(2.2), s(3.0 / 1.5));
    let vector2 = Vector::new(s(-0.2), s(1.1 * 2.0), s(2.0));
    assert_eq!(vector1, vector2);
}

#[test]
fn two_vectors_approx_ne() {
    let vector1 = Vector::new(s(0.000001), s(2.0), s(3.0));
    let vector2 = Vector::new(s(0.0), s(2.0), s(3.0));
    assert_ne!(vector1, vector2);
}

#[test]
fn add_two_vectors() {
    let vector1 = Vector::new(s(-4.0), s(2.0), s(-3.0));
    let vector2 = Vector::new(s(0.0), s(2.0), s(3.0));
    let new_vector = vector1.add(vector2);
    assert_eq!(new_vector, Vector::new(s(-4.0), s(4.0), s(0.0)));
    assert_eq!(new_vector.w, s(0.0));
}

#[test]
fn add_point_to_vector() {
    let vector = Vector::new(s(-4.0), s(2.0), s(-3.0));
    let point = Point::new(s(0.0), s(2.0), s(3.0));
    let new_point = vector.add_point(point);
    assert_eq!(new_point, Point::new(s(-4.0), s(4.0), s(0.0)));
    assert_eq!(new_point.w, s(1.0));
}

#[test]
fn sub_two_vectors() {
    let vector1 = Vector::new(s(-4.0), s(2.0), s(-3.0));
    let vector2 = Vector::new(s(0.0), s(2.0), s(3.0));
    let new_vector = vector1.sub(vector2);
    assert_eq!(new_vector, Vector::new(s(-4.0), s(0.0), s(-6.0)));
    assert_eq!(new_vector.w, s(0.0));
}

#[test]
fn sub_point_from_vector() {
    let vector = Vector::new(s(-4.0), s(2.0), s(-3.0));
    let point = Point::new(s(0.0), s(2.0), s(3.0));
    let new_tuple = vector.sub_point(point);
    assert_eq!(new_tuple, Tuple::new(s(-4.0), s(0.0), s(-6.0), s(-1.0)));
}

#[test]
fn neg_vector() {
    let vector = Vector::new(s(-4.0), s(2.0), s(0.0));
    let new_vector = vector.neg();
    assert_eq!(new_vector, Vector::new(s(4.0), s(-2.0), s(0.0)));
    assert_eq!(new_vector.w, s(0.0));
}

#[test]
fn scale_vector() {
    let vector = Vector::new(s(-4.0), s(2.0), s(0.0));
    let new_vector = vector.scale(s(1.5));
    assert_eq!(new_vector, Vector::new(s(-6.0), s(3.0), s(0.0)));
}

#[test]
fn scale_vector_by_division() {
    let vector = Vector::new(s(-4.0), s(2.0), s(0.0));
    let new_vector = vector.div(s(2.0));
    assert_eq!(new_vector, Vector::new(s(-2.0), s(1.0), s(0.0)));
}

#[test]
fn vector_magnitude() {
    let vector = Vector::new(s(3.0), s(4.0), s(12.0));
    assert_eq!(vector.magnitude(), s(13.0));
}

#[test]
fn vector_normalization() {
    let vector = Vector::new(s(3.0), s(-4.0), s(0.0));
    assert_eq!(vector.normalize(), Vector::new(s(0.6), s(-0.8), s(0.0)));
}

#[test]
fn vector_dot_product() {
    let dot_product = Vector::new(s(1.0), s(2.0), s(3.0)).dot(Vector::new(s(2.0), s(3.0), s(4.0)));
    assert_eq!(dot_product, s(20.0));
}

#[test]
fn vector_cross_product() {
    let vector1 = Vector::new(s(1.0), s(2.0), s(3.0));
    let vector2 = Vector::new(s(2.0), s(3.0), s(4.0));
    let cross_product1 = vector1.cross(vector2);
    let cross_product2 = vector2.cross(vector1);
    assert_eq!(cross_product1, Vector::new(s(-1.0), s(2.0), s(-1.0)));
    assert_eq!(cross_product2, Vector::new(s(1.0), s(-2.0), s(1.0)));
}
