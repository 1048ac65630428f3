use fixgeo::canvas::Canvas;
use fixgeo::color::Color;
use fixgeo::scalar::Scalar;

/// The scalar closest to the real number `x`.
fn s(x: f64) -> Scalar {
    Scalar::from_units((x * 100_000_000.0).round() as i64)
}

#[test]
fn new_canvas_is_black() {
    let canvas = Canvas::new(2, 3);
    assert_eq!(canvas.width() * canvas.height(), 6);
    for x in 0..2 {
        for y in 0..3 {
            assert_eq!(canvas.pixel_at(x, y), Color::black());
        }
    }
}

#[test]
fn write_pixel_to_canvas() {
    let mut canvas = Canvas::new(2, 3);
    canvas.write_pixel(1, 1, Color::white());
    assert_eq!(canvas.pixel_at(1, 1), Color::white());
}

#[test]
fn out_of_bounds_writes_are_ignored() {
    let mut canvas = Canvas::new(2, 3);
    canvas.write_pixel(2, 0, Color::white());
    canvas.write_pixel(0, 3, Color::white());
    canvas.write_pixel(100, 100, Color::white());
    for x in 0..2 {
        for y in 0..3 {
            assert_eq!(canvas.pixel_at(x, y), Color::black());
        }
    }
}

#[test]
fn out_of_bounds_reads_are_black() {
    let mut canvas = Canvas::new(2, 3);
    canvas.write_pixel(0, 0, Color::white());
    assert_eq!(canvas.pixel_at(2, 0), Color::black());
    assert_eq!(canvas.pixel_at(0, 3), Color::black());
}

#[test]
fn ppm_export_of_small_canvas() {
    let mut canvas = Canvas::new(5, 3);
    canvas.write_pixel(2, 1, Color::new(s(1.0), s(0.0), s(0.0)));
    let text = String::from_utf8(canvas.to_ppm()).unwrap();
    assert!(text.starts_with("P3\n5 3\n255\n"));
    let body = &text["P3\n5 3\n255\n".len()..];
    let lines: Vec<&str> = body.split_terminator('\n').collect();
    assert_eq!(lines.len(), 15);
    for (i, line) in lines.iter().enumerate() {
        if i == 5 + 2 {
            assert_eq!(*line, "255 0 0");
        } else {
            assert_eq!(*line, "0 0 0");
        }
    }
    assert!(body.ends_with('\n'));
}

#[test]
fn ppm_clamps_and_quantizes_channels() {
    let mut canvas = Canvas::new(1, 1);
    canvas.write_pixel(0, 0, Color::new(s(1.5), s(-0.3), s(0.5)));
    let text = String::from_utf8(canvas.to_ppm()).unwrap();
    assert_eq!(text, "P3\n1 1\n255\n255 0 128\n");
}

#[test]
fn ppm_export_leaves_canvas_usable() {
    let mut canvas = Canvas::new(1, 2);
    canvas.write_pixel(0, 0, Color::white());
    let first = canvas.to_ppm();
    let second = canvas.to_ppm();
    assert_eq!(first, second);
    assert_eq!(canvas.pixel_at(0, 0), Color::white());
}
