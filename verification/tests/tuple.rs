use fixgeo::point::Point;
use fixgeo::scalar::Scalar;
use fixgeo::tuple::Tuple;
use fixgeo::vector::Vector;

/// The scalar closest to the real number `x`.
fn s(x: f64) -> Scalar {
    Scalar::from_units((x * 100_000_000.0).round() as i64)
}

#[test]
fn two_tuples_approx_eq() {
    let tuple1 = Tuple::new(s(0.0 - 0.5 + 0.3), s(2.2), s(3.0 / 1.5), s(-4.0));
    let tuple2 = Tuple::new(s(-0.2), s(1.1 * 2.0), s(2.0), s(4.0 * -1.0));
    assert_eq!(tuple1, tuple2);
}

#[test]
fn tuple_from_point() {
    let tuple = Tuple::from(Point::new(s(-4.0), s(2.0), s(-3.0)));
    assert_eq!(tuple, Tuple::new(s(-4.0), s(2.0), s(-3.0), s(1.0)));
}

#[test]
fn tuple_from_vector() {
    let tuple = Tuple::from(Vector::new(s(-4.0), s(2.0), s(-3.0)));
    assert_eq!(tuple, Tuple::new(s(-4.0), s(2.0), s(-3.0), s(0.0)));
}

#[test]
fn two_tuples_approx_ne() {
    let tuple1 = Tuple::new(s(0.000001), s(2.0), s(3.0), s(-4.0));
    let tuple2 = Tuple::new(s(0.0), s(2.0), s(3.0), s(-4.0));
    assert_ne!(tuple1, tuple2);
}

#[test]
fn add_two_tuples() {
    let tuple1 = Tuple::new(s(-4.0), s(2.0), s(-3.0), s(-4.0));
    let tuple2 = Tuple::new(s(0.0), s(2.0), s(3.0), s(-1.0));
    let new_tuple = tuple1.add(tuple2);
    assert_eq!(new_tuple, Tuple::new(s(-4.0), s(4.0), s(0.0), s(-5.0)));
}

#[test]
fn add_vector_to_tuple() {
    let tuple = Tuple::new(s(-4.0), s(2.0), s(-3.0), s(-4.0));
    let vector = Vector::new(s(0.0), s(2.0), s(3.0));
    let new_tuple = tuple.add_vector(vector);
    assert_eq!(new_tuple, Tuple::new(s(-4.0), s(4.0), s(0.0), s(-4.0)));
}

#[test]
fn add_point_to_tuple() {
    let tuple = Tuple::new(s(-4.0), s(2.0), s(-3.0), s(-4.0));
    let point = Point::new(s(0.0), s(2.0), s(3.0));
    let new_tuple = tuple.add_point(point);
    assert_eq!(new_tuple, Tuple::new(s(-4.0), s(4.0), s(0.0), s(-3.0)));
}

#[test]
fn sub_two_tuples() {
    let tuple1 = Tuple::new(s(-4.0), s(2.0), s(-3.0), s(-4.0));
    let tuple2 = Tuple::new(s(0.0), s(2.0), s(3.0), s(-1.0));
    let new_tuple = tuple1.sub(tuple2);
    assert_eq!(new_tuple, Tuple::new(s(-4.0), s(0.0), s(-6.0), s(-3.0)));
}

#[test]
fn sub_vector_from_tuple() {
    let tuple = Tuple::new(s(-4.0), s(2.0), s(-3.0), s(-4.0));
    let vector = Vector::new(s(0.0), s(2.0), s(3.0));
    let new_tuple = tuple.sub_vector(vector);
    assert_eq!(new_tuple, Tuple::new(s(-4.0), s(0.0), s(-6.0), s(-4.0)));
}

#[test]
fn sub_point_from_tuple() {
    let tuple = Tuple::new(s(-4.0), s(2.0), s(-3.0), s(-4.0));
    let point = Point::new(s(0.0), s(2.0), s(3.0));
    let new_tuple = tuple.sub_point(point);
    assert_eq!(new_tuple, Tuple::new(s(-4.0), s(0.0), s(-6.0), s(-5.0)));
}

#[test]
fn neg_tuple() {
    let tuple = Tuple::new(s(-4.0), s(2.0), s(0.0), s(-3.0));
    let new_tuple = tuple.neg();
    assert_eq!(new_tuple, Tuple::new(s(4.0), s(-2.0), s(0.0), s(3.0)));
}

#[test]
fn scale_tuple() {
    let tuple = Tuple::new(s(-4.0), s(2.0), s(0.0), s(-3.0));
    let new_tuple = tuple.scale(s(1.5));
    assert_eq!(new_tuple, Tuple::new(s(-6.0), s(3.0), s(0.0), s(-4.5)));
}

#[test]
fn tuple_magnitude_and_normalization() {
    let tuple = Tuple::new(s(1.0), s(2.0), s(2.0), s(0.0));
    assert_eq!(tuple.magnitude(), s(3.0));
    let unit = tuple.normalize();
    assert_eq!(
        unit,
        Tuple::new(s(1.0 / 3.0), s(2.0 / 3.0), s(2.0 / 3.0), s(0.0)),
    );
    assert_eq!(unit.magnitude(), s(1.0));
}

#[test]
fn scale_tuple_by_division() {
    let tuple = Tuple::new(s(-4.0), s(2.0), s(0.0), s(-3.0));
    let new_tuple = tuple.div(s(2.0));
    assert_eq!(new_tuple, Tuple::new(s(-2.0), s(1.0), s(0.0), s(-1.5)));
}
