use fixgeo::color::Color;
use fixgeo::scalar::Scalar;

/// The scalar closest to the real number `x`.
fn s(x: f64) -> Scalar {
    Scalar::from_units((x * 100_000_000.0).round() as i64)
}

#[test]
fn two_colors_approx_eq() {
    let color1 = Color::new(s(0.0 + 0.5 - 0.3), s(0.2), s(1.0 / 1.5));
    let color2 = Color::new(s(0.2), s(0.2), s(0.66666667));
    assert_eq!(color1, color2);
}

#[test]
fn add_two_colors() {
    let color1 = Color::new(s(0.5), s(1.0), s(0.3));
    let color2 = Color::new(s(-0.4), s(1.0), s(-0.3));
    let new_color = color1.add(color2);
    assert_eq!(new_color, Color::new(s(0.1), s(2.0), s(0.0)));
}

#[test]
fn sub_two_colors() {
    let color1 = Color::new(s(0.5), s(1.0), s(0.3));
    let color2 = Color::new(s(-0.4), s(1.0), s(-0.3));
    let new_color = color1.sub(color2);
    assert_eq!(new_color, Color::new(s(0.9), s(0.0), s(0.6)));
}

#[test]
fn scale_color() {
    let color = Color::new(s(-4.0), s(2.0), s(0.0));
    let new_color = color.scale(s(1.5));
    assert_eq!(new_color, Color::new(s(-6.0), s(3.0), s(0.0)));
}

#[test]
fn scale_color_by_division() {
    let color = Color::new(s(-4.0), s(2.0), s(0.0));
    let new_color = color.div(s(2.0));
    assert_eq!(new_color, Color::new(s(-2.0), s(1.0), s(0.0)));
}

#[test]
fn color_hadamard_product() {
    let hadamard_product = Color::new(s(0.5), s(1.0), s(0.0)).hadamard(
        Color::new(s(0.25), s(0.8), s(3.0)),
    );
    assert_eq!(hadamard_product, Color::new(s(0.125), s(0.8), s(0.0)));
}
