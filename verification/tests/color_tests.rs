use ray_tracer::color::Color;
use ray_tracer::scalar::Scalar;
use ray_tracer::text::digits;

fn s(x: f64) -> Scalar {
    Scalar::from_bits(x.to_bits())
}

fn color(r: f64, g: f64, b: f64) -> Color {
    Color::make(s(r), s(g), s(b))
}

#[test]
fn created_from_tuple() {
    let t = (s(0.5), s(0.4), s(1.7), s(0.0));
    let c = Color::from(t);
    assert_eq!(c.red, s(0.5));
    assert_eq!(c.green, s(0.4));
    assert_eq!(c.blue, s(1.7));
}

#[test]
fn the_default_colour_is_black() {
    assert_eq!(Color::default(), color(0.0, 0.0, 0.0));
    assert_eq!(Color::black(), color(0.0, 0.0, 0.0));
}

#[test]
fn named_colours() {
    assert_eq!(Color::white(), color(1.0, 1.0, 1.0));
    assert_eq!(Color::red(), color(1.0, 0.0, 0.0));
    assert_eq!(Color::green(), color(0.0, 1.0, 0.0));
    assert_eq!(Color::blue(), color(0.0, 0.0, 1.0));
    assert_eq!(Color::aqua(), color(0.0, 1.0, 1.0));
    assert_eq!(Color::yellow(), color(1.0, 1.0, 0.0));
    assert_eq!(Color::fuchsia(), color(1.0, 0.0, 1.0));
}

#[test]
fn colour_arithmetic() {
    let a = color(0.9, 0.6, 0.75);
    let b = color(0.7, 0.1, 0.25);
    assert_eq!(a.add(&b), color(0.9 + 0.7, 0.6 + 0.1, 1.0));
    assert_eq!(a.subtract(&b), color(0.9 - 0.7, 0.5, 0.5));
    assert_eq!(a.multiply(&b), color(0.9 * 0.7, 0.6 * 0.1, 0.75 * 0.25));
    assert_eq!(a.multiply_value(s(2.0)), color(1.8, 1.2, 1.5));
}

#[test]
fn channels_are_brought_to_the_scale() {
    assert_eq!(color(1.5, 0.0, 0.0).scale(255), color(255.0, 0.0, 0.0));
    assert_eq!(color(0.0, 0.5, 0.0).scale(255), color(0.0, 128.0, 0.0));
    assert_eq!(color(-0.5, 0.0, 1.0).scale(255), color(0.0, 0.0, 255.0));
    assert_eq!(color(1.0, 0.8, 0.6).scale(255), color(255.0, 204.0, 153.0));
    assert_eq!(Color::scale_value(s(0.5), s(100.0)), s(50.0));
    assert_eq!(Color::scale_value(s(1.0000001), s(100.0)), s(100.0));
    assert_eq!(Color::scale_value(s(-0.0), s(100.0)), s(0.0));
}

#[test]
fn scaled_channels_as_text() {
    assert_eq!(color(1.5, 0.0, 0.0).raw_scale(255), "255 0 0");
    assert_eq!(color(0.0, 0.5, 0.0).raw_scale(255), "0 128 0");
    assert_eq!(color(1.0, 0.8, 0.6).raw_scale(255), "255 204 153");
    assert_eq!(color(0.25, 0.5, 0.75).raw_scale(1000), "250 500 750");
}

#[test]
fn integers_in_decimal() {
    assert_eq!(digits(0), "0");
    assert_eq!(digits(7), "7");
    assert_eq!(digits(10), "10");
    assert_eq!(digits(255), "255");
    assert_eq!(digits(1234567890), "1234567890");
    assert_eq!(digits(u64::MAX), "18446744073709551615");
}
